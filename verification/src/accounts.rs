//! Public accounts as the vault lists them.
use crate::address::Address;
use crate::text::{optional_text, same_text};
use vstd::prelude::*;

verus! {

/// Where the key of a Public account comes from.
#[derive(Clone, Copy, Debug, PartialEq, Eq, Structural)]
pub enum PublicAccountSource {
    Imported,
    Derived,
    HardwareDerived,
}

/// The wallets that a Public account belongs to.
#[derive(Debug, PartialEq, Eq)]
pub enum PublicAccountScope {
    Global,
    PrivateWallet { wallet_uuid: String },
}

/// Whether a Public account may act.
#[derive(Clone, Copy, Debug, PartialEq, Eq, Structural)]
pub enum PublicAccountStatus {
    Active,
    Inactive,
}

/// One Public account.
#[derive(Debug, PartialEq, Eq)]
pub struct PublicAccountMetadata {
    pub public_account_uuid: String,
    pub address: Address,
    /// The label that the user gave it.
    pub label: Option<String>,
    /// The label that it is shown under, where it has one.
    pub display_label: Option<String>,
    pub source: PublicAccountSource,
    pub scope: PublicAccountScope,
    pub status: PublicAccountStatus,
}

/// What a Public account says.
#[verifier::ext_equal]
pub struct AccountId {
    pub uuid: Seq<char>,
    pub address: Address,
    pub label: Option<Seq<char>>,
    pub display_label: Option<Seq<char>>,
    pub source: PublicAccountSource,
    /// The wallet that it belongs to, or `None` where it belongs to all.
    pub wallet: Option<Seq<char>>,
    pub status: PublicAccountStatus,
}

impl View for PublicAccountMetadata {
    type V = AccountId;

    open spec fn view(&self) -> AccountId {
        AccountId {
            uuid: self.public_account_uuid@,
            address: self.address,
            label: optional_text(self.label),
            display_label: optional_text(self.display_label),
            source: self.source,
            wallet: match self.scope {
                PublicAccountScope::Global => None,
                PublicAccountScope::PrivateWallet { wallet_uuid } => Some(wallet_uuid@),
            },
            status: self.status,
        }
    }
}

impl AccountId {
    /// Whether the account may be used with this wallet.
    pub open spec fn scoped_to(self, wallet: Seq<char>) -> bool {
        self.wallet is None || self.wallet == Some(wallet)
    }
}

impl PublicAccountMetadata {
    /// Whether the account may be used with this wallet.
    pub fn is_scoped_to_wallet(&self, wallet: &str) -> (scoped: bool)
        ensures
            scoped == self@.scoped_to(wallet@),
    {
        match &self.scope {
            PublicAccountScope::Global => true,
            PublicAccountScope::PrivateWallet { wallet_uuid } => same_text(wallet_uuid, wallet),
        }
    }

    /// Whether the account may act with this wallet.
    pub fn is_active_for_wallet(&self, wallet: &str) -> (active: bool)
        ensures
            active == (self@.scoped_to(wallet@) && self@.status == PublicAccountStatus::Active),
    {
        self.is_scoped_to_wallet(wallet) && self.status == PublicAccountStatus::Active
    }

    /// Whether the account belongs to all wallets.
    pub fn is_global(&self) -> (global: bool)
        ensures
            global == (self@.wallet is None),
    {
        match self.scope {
            PublicAccountScope::Global => true,
            PublicAccountScope::PrivateWallet { .. } => false,
        }
    }

    /// Whether both are the same account, in every respect.
    pub fn same(&self, other: &PublicAccountMetadata) -> (same: bool)
        ensures
            same == (self@ == other@),
    {
        let same_scope = match (&self.scope, &other.scope) {
            (PublicAccountScope::Global, PublicAccountScope::Global) => true,
            (
                PublicAccountScope::PrivateWallet { wallet_uuid: a },
                PublicAccountScope::PrivateWallet { wallet_uuid: b },
            ) => *a == *b,
            _ => false,
        };
        self.public_account_uuid == other.public_account_uuid && self.address == other.address
            && crate::text::same_optional_text(&self.label, &other.label)
            && crate::text::same_optional_text(&self.display_label, &other.display_label)
            && self.source == other.source && same_scope && self.status == other.status
    }

    /// A copy of this account.
    pub fn copy(&self) -> (copy: PublicAccountMetadata)
        ensures
            copy@ == self@,
    {
        PublicAccountMetadata {
            public_account_uuid: self.public_account_uuid.clone(),
            address: self.address,
            label: self.label.clone(),
            display_label: self.display_label.clone(),
            source: self.source,
            scope: match &self.scope {
                PublicAccountScope::Global => PublicAccountScope::Global,
                PublicAccountScope::PrivateWallet { wallet_uuid } => {
                    PublicAccountScope::PrivateWallet { wallet_uuid: wallet_uuid.clone() }
                },
            },
            status: self.status,
        }
    }
}

/// What the accounts of a list say.
pub open spec fn account_ids(accounts: Seq<PublicAccountMetadata>) -> Seq<AccountId> {
    accounts.map_values(|account: PublicAccountMetadata| account@)
}

/// Two accounts are the same only where everything that is kept of them agrees.
pub proof fn accounts_are_told_apart(a: PublicAccountMetadata, b: PublicAccountMetadata)
    requires
        a@ == b@,
    ensures
        a.public_account_uuid@ == b.public_account_uuid@,
        a.address == b.address,
        a.source == b.source,
        a.status == b.status,
        a.scope is Global <==> b.scope is Global,
        a.scope matches PublicAccountScope::PrivateWallet { wallet_uuid } ==> (b.scope matches
            PublicAccountScope::PrivateWallet { wallet_uuid: other } && wallet_uuid@ == other@),
        optional_text(a.label) == optional_text(b.label),
        optional_text(a.display_label) == optional_text(b.display_label),
{
}

/// An account that is global belongs to every wallet, and any other to its own wallet alone.
pub proof fn accounts_belong_to_their_wallet(account: PublicAccountMetadata, wallet: Seq<char>)
    ensures
        account.scope is Global ==> account@.scoped_to(wallet),
        account.scope matches PublicAccountScope::PrivateWallet { wallet_uuid } ==> (
        account@.scoped_to(wallet) <==> wallet_uuid@ == wallet),
        account@.wallet is None <==> account.scope is Global,
        account@.uuid == account.public_account_uuid@,
        account@.address == account.address,
        account@.status == account.status,
        account@.source == account.source,
{
}

/// Accounts are taken one by one, in their order.
pub proof fn accounts_are_taken_in_order(accounts: Seq<PublicAccountMetadata>)
    ensures
        account_ids(accounts).len() == accounts.len(),
        forall|i: int|
            0 <= i < accounts.len() ==> (#[trigger] account_ids(accounts)[i]) == accounts[i]@,
{
}

/// Everything that is told of a `PublicAccountMetadata` is its own, under its own name.
pub proof fn public_account_metadata_is_told_as_it_is(kept: PublicAccountMetadata)
    ensures
        kept@.uuid == kept.public_account_uuid@,
        kept@.address == kept.address,
        kept.label matches Some(text) ==> kept@.label == Some(text@),
        kept.label is None ==> kept@.label is None,
        kept.display_label matches Some(text) ==> kept@.display_label == Some(text@),
        kept.display_label is None ==> kept@.display_label is None,
        kept@.source == kept.source,
        kept@.status == kept.status,
{
}

} // verus!
