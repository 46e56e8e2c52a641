//! The Public accounts that take part in governance.
use crate::accounts::{account_ids, AccountId, PublicAccountMetadata, PublicAccountStatus};
use crate::address::{hex_digits, Address};
use crate::governance::model::{
    ContextId, GovernanceContextKey, GovernanceParticipantIdentity, ParticipantId,
};
use crate::keyed::KeySet;
use crate::text::{
    ascii_lowered, contains_text, occurs_in, same_text, same_texts, texts, to_ascii_lowercase, trim,
    trimmed,
};
use vstd::prelude::*;

verus! {

/// How many accounts are enrolled, and how many of those are inactive.
#[derive(Clone, Copy, Debug, PartialEq, Eq, Structural)]
pub struct ParticipantSummary {
    pub selected: usize,
    pub inactive: usize,
}

/// An account that the picker offers.
#[derive(Debug, PartialEq, Eq)]
pub struct ParticipantChoice {
    pub uuid: String,
    pub label: String,
    pub address: Address,
    pub global: bool,
    pub inactive: bool,
}

/// What a choice says.
pub struct Choice {
    pub uuid: Seq<char>,
    pub label: Seq<char>,
    pub address: Address,
    pub global: bool,
    pub inactive: bool,
}

impl View for ParticipantChoice {
    type V = Choice;

    open spec fn view(&self) -> Choice {
        Choice {
            uuid: self.uuid@,
            label: self.label@,
            address: self.address,
            global: self.global,
            inactive: self.inactive,
        }
    }
}

/// What the choices of a list say.
pub open spec fn choices_of(choices: Seq<ParticipantChoice>) -> Seq<Choice> {
    choices.map_values(|choice: ParticipantChoice| choice@)
}

/// The text of an address that a search looks in.
pub open spec fn address_text(address: Address) -> Seq<char> {
    seq!['0', 'x'] + hex_digits(address.value(), 40)
}

/// The text that a search looks for.
pub open spec fn search_text(query: Seq<char>) -> Seq<char> {
    ascii_lowered(trimmed(query))
}

impl ParticipantChoice {
    /// The second line of the choice: the short address, and what is special about the account.
    pub fn detail(&self, short_address: &str) -> (detail: String)
        ensures
            detail@ == short_address@ + (if self@.global {
                " · Global"@
            } else {
                ""@
            }) + (if self@.inactive {
                " · Inactive"@
            } else {
                ""@
            }),
    {
        crate::text::concat3(
            short_address,
            if self.global {
                " · Global"
            } else {
                ""
            },
            if self.inactive {
                " · Inactive"
            } else {
                ""
            },
        )
    }

    /// Whether a search finds the choice, by its label or its address.
    pub fn matches(&self, query: &str) -> (found: bool)
        ensures
            found == (search_text(query@).len() == 0 || occurs_in(
                search_text(query@),
                ascii_lowered(self@.label),
            ) || occurs_in(search_text(query@), address_text(self@.address))),
    {
        let wanted = to_ascii_lowercase(trim(query));
        wanted.as_str().is_empty() || contains_text(&to_ascii_lowercase(&self.label), &wanted)
            || contains_text(&self.address.to_lower_hex(), &wanted)
    }
}

/// Whether an account belongs to the wallet and is enrolled.
pub open spec fn enrolled(account: AccountId, selected: Set<Seq<char>>, wallet: Seq<char>) -> bool {
    account.scoped_to(wallet) && selected.contains(account.uuid)
}

/// The number of accounts that are enrolled with the wallet.
pub open spec fn enrolled_count(
    accounts: Seq<PublicAccountMetadata>,
    selected: Set<Seq<char>>,
    wallet: Option<Seq<char>>,
    only_inactive: bool,
) -> nat
    decreases accounts.len(),
{
    if accounts.len() == 0 {
        0
    } else {
        enrolled_count(accounts.drop_last(), selected, wallet, only_inactive) + if wallet is Some
            && enrolled(accounts.last()@, selected, wallet.unwrap()) && (!only_inactive
            || accounts.last()@.status == PublicAccountStatus::Inactive) {
            1nat
        } else {
            0
        }
    }
}

/// The enrolled accounts, counted.
pub fn participant_summary(
    accounts: &Vec<PublicAccountMetadata>,
    selected: &KeySet<String>,
    wallet_id: Option<&str>,
) -> (summary: ParticipantSummary)
    ensures
        summary.selected == enrolled_count(
            accounts@,
            selected@,
            wallet_text(wallet_id),
            false,
        ),
        summary.inactive == enrolled_count(accounts@, selected@, wallet_text(wallet_id), true),
{
    let mut summary = ParticipantSummary { selected: 0, inactive: 0 };
    let mut i: usize = 0;
    while i < accounts.len()
        invariant
            i <= accounts@.len(),
            summary.selected <= i,
            summary.inactive <= i,
            summary.selected == enrolled_count(
                accounts@.take(i as int),
                selected@,
                wallet_text(wallet_id),
                false,
            ),
            summary.inactive == enrolled_count(
                accounts@.take(i as int),
                selected@,
                wallet_text(wallet_id),
                true,
            ),
        decreases accounts@.len() - i,
    {
        proof {
            assert(accounts@.take(i + 1).drop_last() =~= accounts@.take(i as int));
        }
        let account = &accounts[i];
        let counted = match wallet_id {
            Some(wallet) => account.is_scoped_to_wallet(wallet) && selected.contains(
                &account.public_account_uuid,
            ),
            None => false,
        };
        if counted {
            summary.selected = summary.selected + 1;
            if account.status == PublicAccountStatus::Inactive {
                summary.inactive = summary.inactive + 1;
            }
        }
        i += 1;
    }
    assert(accounts@.take(i as int) =~= accounts@);
    summary
}

/// The characters of an optional wallet identifier.
pub open spec fn wallet_text(wallet: Option<&str>) -> Option<Seq<char>> {
    match wallet {
        Some(id) => Some(id@),
        None => None,
    }
}

/// Whether the picker offers an account: it belongs to the wallet, is active or already enrolled,
/// and a search for `wanted` finds it.
pub open spec fn offered(
    account: AccountId,
    selected: Set<Seq<char>>,
    wallet: Option<Seq<char>>,
    wanted: Seq<char>,
) -> bool {
    &&& wallet is Some
    &&& account.scoped_to(wallet.unwrap())
    &&& account.status == PublicAccountStatus::Active || selected.contains(account.uuid)
    &&& wanted.len() == 0 || (account.label is Some && occurs_in(
        wanted,
        ascii_lowered(account.label.unwrap()),
    )) || occurs_in(wanted, address_text(account.address))
}

/// The choice that stands for an account.
pub open spec fn choice_of(account: AccountId) -> Choice {
    Choice {
        uuid: account.uuid,
        label: match account.display_label {
            Some(label) => label,
            None => "Public account"@,
        },
        address: account.address,
        global: account.wallet is None,
        inactive: account.status == PublicAccountStatus::Inactive,
    }
}

/// The choices that the picker offers, in the order of the accounts.
pub open spec fn offered_choices(
    accounts: Seq<AccountId>,
    selected: Set<Seq<char>>,
    wallet: Option<Seq<char>>,
    wanted: Seq<char>,
) -> Seq<Choice> {
    accounts.filter(|account: AccountId| offered(account, selected, wallet, wanted)).map_values(
        |account: AccountId| choice_of(account),
    )
}

/// The choices that the picker offers.
pub fn participant_choices(
    accounts: &Vec<PublicAccountMetadata>,
    selected: &KeySet<String>,
    wallet_id: Option<&str>,
    query: &str,
) -> (choices: Vec<ParticipantChoice>)
    ensures
        choices_of(choices@) == offered_choices(
            account_ids(accounts@),
            selected@,
            wallet_text(wallet_id),
            search_text(query@),
        ),
{
    let wanted = to_ascii_lowercase(trim(query));
    let ghost ids = account_ids(accounts@);
    let ghost wallet = wallet_text(wallet_id);
    let ghost keep = |account: AccountId| offered(account, selected@, wallet, wanted@);
    let ghost shape = |account: AccountId| choice_of(account);
    let mut choices: Vec<ParticipantChoice> = Vec::new();
    let mut i: usize = 0;
    proof {
        reveal(Seq::filter);
        assert(choices_of(choices@) =~= ids.take(0).filter(keep).map_values(shape));
    }
    while i < accounts.len()
        invariant
            i <= accounts@.len(),
            ids == account_ids(accounts@),
            wallet == wallet_text(wallet_id),
            keep == (|account: AccountId| offered(account, selected@, wallet, wanted@)),
            shape == (|account: AccountId| choice_of(account)),
            choices_of(choices@) == ids.take(i as int).filter(keep).map_values(shape),
        decreases accounts@.len() - i,
    {
        let ghost before = choices@;
        proof {
            reveal(Seq::filter);
            assert(ids.take(i + 1).drop_last() =~= ids.take(i as int));
            assert(ids.take(i + 1).last() == accounts@[i as int]@);
        }
        let account = &accounts[i];
        let in_wallet = match wallet_id {
            Some(wallet) => account.is_scoped_to_wallet(wallet),
            None => false,
        };
        let found = wanted.as_str().is_empty() || (match &account.label {
            Some(label) => contains_text(&to_ascii_lowercase(label), &wanted),
            None => false,
        }) || contains_text(&account.address.to_lower_hex(), &wanted);
        if in_wallet && (account.status == PublicAccountStatus::Active || selected.contains(
            &account.public_account_uuid,
        )) && found {
            let choice = ParticipantChoice {
                uuid: account.public_account_uuid.clone(),
                label: match &account.display_label {
                    Some(label) => label.clone(),
                    None => "Public account".to_owned(),
                },
                address: account.address,
                global: account.is_global(),
                inactive: account.status == PublicAccountStatus::Inactive,
            };
            choices.push(choice);
            proof {
                let kept = ids.take(i as int).filter(keep);
                assert(ids.take(i + 1).filter(keep) == kept.push(accounts@[i as int]@));
                assert(choices_of(choices@) =~= choices_of(before).push(choice@));
                assert(kept.push(accounts@[i as int]@).map_values(shape) =~= kept.map_values(
                    shape,
                ).push(choice_of(accounts@[i as int]@)));
            }
        }
        i += 1;
    }
    assert(ids.take(i as int) =~= ids);
    choices
}

/// Whether a text is among those of a list.
pub open spec fn among(text: Seq<char>, choices: Seq<Choice>) -> bool {
    exists|i: int| 0 <= i < choices.len() && (#[trigger] choices[i]).uuid == text
}

/// Whether one of the choices has this identifier.
fn is_offered(uuid: &str, choices: &Vec<ParticipantChoice>) -> (found: bool)
    ensures
        found == among(uuid@, choices_of(choices@)),
{
    let mut i: usize = 0;
    while i < choices.len()
        invariant
            i <= choices@.len(),
            forall|j: int| 0 <= j < i ==> (#[trigger] choices_of(choices@)[j]).uuid != uuid@,
        decreases choices@.len() - i,
    {
        if same_text(&choices[i].uuid, uuid) {
            assert(choices_of(choices@)[i as int].uuid == uuid@);
            return true;
        }
        i += 1;
    }
    false
}

/// Those of the picked identifiers that the picker offers for the wallet, where the picker shows
/// that wallet. The change carries the complete selection, including choices hidden by the query.
pub fn picked_values(
    values: &Vec<String>,
    accounts: &Vec<PublicAccountMetadata>,
    wallet_id: Option<&str>,
    picker_wallet_id: Option<&str>,
    saved: &Vec<String>,
) -> (picked: Option<Vec<String>>)
    ensures
        if wallet_id is Some && wallet_text(wallet_id) == wallet_text(picker_wallet_id) {
            picked matches Some(list) && texts(list@) == texts(values@).filter(
                |value: Seq<char>|
                    among(
                        value,
                        offered_choices(
                            account_ids(accounts@),
                            texts(saved@).to_set(),
                            wallet_text(wallet_id),
                            Seq::empty(),
                        ),
                    ),
            )
        } else {
            picked is None
        },
{
    let wallet = match wallet_id {
        Some(wallet) => wallet,
        None => return None,
    };
    let same = match picker_wallet_id {
        Some(shown) => same_text(wallet, shown),
        None => false,
    };
    if !same {
        return None;
    }
    let selected = text_set(saved);
    let eligible = participant_choices(accounts, &selected, Some(wallet), "");
    proof {
        reveal_strlit("");
        assert(trimmed(""@) =~= Seq::<char>::empty());
        assert(search_text(""@) =~= Seq::<char>::empty());
    }
    let ghost keep = |value: Seq<char>| among(value, choices_of(eligible@));
    let ghost all = texts(values@);
    let mut picked: Vec<String> = Vec::new();
    let mut i: usize = 0;
    proof {
        reveal(Seq::filter);
        assert(texts(picked@) =~= all.take(0).filter(keep));
    }
    while i < values.len()
        invariant
            i <= values@.len(),
            all == texts(values@),
            keep == (|value: Seq<char>| among(value, choices_of(eligible@))),
            texts(picked@) == all.take(i as int).filter(keep),
        decreases values@.len() - i,
    {
        let ghost before = picked@;
        proof {
            reveal(Seq::filter);
            assert(all.take(i + 1).drop_last() =~= all.take(i as int));
            assert(all.take(i + 1).last() == values@[i as int]@);
        }
        if is_offered(&values[i], &eligible) {
            picked.push(values[i].clone());
            assert(texts(picked@) =~= texts(before).push(values@[i as int]@));
        }
        i += 1;
    }
    assert(all.take(i as int) =~= all);
    Some(picked)
}

/// The set of the texts of a list.
pub fn text_set(list: &Vec<String>) -> (set: KeySet<String>)
    ensures
        set@ == texts(list@).to_set(),
{
    let mut set: KeySet<String> = KeySet::new();
    let mut i: usize = 0;
    while i < list.len()
        invariant
            i <= list@.len(),
            forall|text: Seq<char>| #[trigger]
                set@.contains(text) == texts(list@).take(i as int).contains(text),
        decreases list@.len() - i,
    {
        let ghost before = set@;
        set.insert(list[i].clone());
        proof {
            let head = texts(list@).take(i as int);
            let longer = texts(list@).take(i + 1);
            assert forall|text: Seq<char>| #[trigger]
                set@.contains(text) == longer.contains(text) by {
                assert(longer[i as int] == list@[i as int]@);
                if head.contains(text) {
                    let j = choose|j: int| 0 <= j < head.len() && head[j] == text;
                    assert(longer[j] == text);
                }
                if longer.contains(text) && text != list@[i as int]@ {
                    let j = choose|j: int| 0 <= j < longer.len() && longer[j] == text;
                    assert(head[j] == text);
                }
                assert(before.contains(text) == head.contains(text));
            }
        }
        i += 1;
    }
    assert(texts(list@).take(i as int) =~= texts(list@));
    assert(set@ =~= texts(list@).to_set());
    set
}

/// The new selection, where it differs from the saved one. `normalized` is the picked selection in
/// the form in which it is saved.
pub fn participant_picker_change(normalized: Vec<String>, saved: &Vec<String>) -> (change: Option<
    Vec<String>,
>)
    ensures
        change == if texts(normalized@) == texts(saved@) {
            None
        } else {
            Some(normalized)
        },
{
    if same_texts(&normalized, saved) {
        None
    } else {
        Some(normalized)
    }
}

/// Whether an account is the one that a saved identifier stands for.
pub open spec fn account_for(account: AccountId, uuid: Seq<char>, wallet: Seq<char>) -> bool {
    account.uuid == uuid && account.scoped_to(wallet)
}

/// The position of the first account that a saved identifier stands for.
pub open spec fn first_account(
    accounts: Seq<AccountId>,
    uuid: Seq<char>,
    wallet: Seq<char>,
    from: int,
) -> Option<int>
    decreases accounts.len() - from,
{
    if from < 0 || from >= accounts.len() {
        None
    } else if account_for(accounts[from], uuid, wallet) {
        Some(from)
    } else {
        first_account(accounts, uuid, wallet, from + 1)
    }
}

/// The accounts that saved identifiers stand for, in the order of the identifiers.
pub open spec fn participants_of(
    uuids: Seq<Seq<char>>,
    accounts: Seq<AccountId>,
    wallet: Seq<char>,
) -> Seq<AccountId>
    decreases uuids.len(),
{
    if uuids.len() == 0 {
        Seq::empty()
    } else {
        let head = participants_of(uuids.drop_last(), accounts, wallet);
        match first_account(accounts, uuids.last(), wallet, 0) {
            Some(at) => head.push(accounts[at]),
            None => head,
        }
    }
}

/// The enrolled accounts of a wallet: those that its saved identifiers stand for.
pub fn enrolled_accounts(
    uuids: &Vec<String>,
    accounts: &Vec<PublicAccountMetadata>,
    wallet: &str,
) -> (participants: Vec<PublicAccountMetadata>)
    ensures
        account_ids(participants@) == participants_of(
            texts(uuids@),
            account_ids(accounts@),
            wallet@,
        ),
{
    let ghost ids = account_ids(accounts@);
    let ghost wanted = texts(uuids@);
    let mut participants: Vec<PublicAccountMetadata> = Vec::new();
    let mut i: usize = 0;
    assert(account_ids(participants@) =~= participants_of(wanted.take(0), ids, wallet@));
    while i < uuids.len()
        invariant
            i <= uuids@.len(),
            ids == account_ids(accounts@),
            wanted == texts(uuids@),
            account_ids(participants@) == participants_of(wanted.take(i as int), ids, wallet@),
        decreases uuids@.len() - i,
    {
        proof {
            assert(wanted.take(i + 1).drop_last() =~= wanted.take(i as int));
            assert(wanted.take(i + 1).last() == uuids@[i as int]@);
        }
        let ghost goal = first_account(ids, uuids@[i as int]@, wallet@, 0);
        let mut at: usize = 0;
        while at < accounts.len() && !(accounts[at].public_account_uuid == uuids[i]
            && accounts[at].is_scoped_to_wallet(wallet))
            invariant
                at <= accounts@.len(),
                i < uuids@.len(),
                ids == account_ids(accounts@),
                goal == first_account(ids, uuids@[i as int]@, wallet@, at as int),
            decreases accounts@.len() - at,
        {
            assert(ids[at as int] == accounts@[at as int]@);
            at += 1;
        }
        let ghost before = participants@;
        if at < accounts.len() {
            assert(ids[at as int] == accounts@[at as int]@);
            let found = accounts[at].copy();
            participants.push(found);
            assert(account_ids(participants@) =~= account_ids(before).push(ids[at as int]));
        }
        i += 1;
    }
    assert(wanted.take(i as int) =~= wanted);
    participants
}

/// The identities of accounts.
pub open spec fn identities(accounts: Seq<AccountId>) -> Seq<ParticipantId> {
    accounts.map_values(
        |account: AccountId| ParticipantId { uuid: account.uuid, address: account.address },
    )
}

/// The key of a wallet, a chain and enrolled accounts.
pub fn context_key_of(
    wallet_id: Option<&str>,
    chain_id: u64,
    participants: &Vec<PublicAccountMetadata>,
) -> (key: GovernanceContextKey)
    ensures
        key@ == (ContextId {
            wallet_id: wallet_text(wallet_id),
            chain_id,
            participants: identities(account_ids(participants@)),
        }),
{
    let mut list: Vec<GovernanceParticipantIdentity> = Vec::new();
    let mut i: usize = 0;
    while i < participants.len()
        invariant
            i <= participants@.len(),
            list@.len() == i,
            forall|j: int|
                0 <= j < i ==> (#[trigger] list@[j])@ == (ParticipantId {
                    uuid: participants@[j]@.uuid,
                    address: participants@[j]@.address,
                }),
        decreases participants@.len() - i,
    {
        list.push(
            GovernanceParticipantIdentity {
                uuid: participants[i].public_account_uuid.clone(),
                address: participants[i].address,
            },
        );
        i += 1;
    }
    let key = GovernanceContextKey {
        wallet_id: match wallet_id {
            Some(wallet) => Some(wallet.to_owned()),
            None => None,
        },
        chain_id,
        participants: list,
    };
    assert(key@.participants =~= identities(account_ids(participants@)));
    key
}

/// The text of the button that opens the picker.
pub fn enrollment_label(selected: usize) -> (label: String)
    ensures
        label@ == if selected == 0 {
            "Enroll accounts..."@
        } else if selected == 1 {
            "1 account enrolled"@
        } else {
            crate::text::decimal(selected as nat) + " accounts enrolled"@
        },
{
    if selected == 0 {
        "Enroll accounts...".to_owned()
    } else if selected == 1 {
        "1 account enrolled".to_owned()
    } else {
        crate::text::concat2(&crate::text::decimal_u64(selected as u64), " accounts enrolled")
    }
}

/// Two choices are the same exactly where everything that is shown of them is.
pub proof fn choices_are_told_apart(
    a: ParticipantChoice,
    b: ParticipantChoice,
    choices: Seq<ParticipantChoice>,
    at: int,
)
    requires
        0 <= at < choices.len(),
    ensures
        a@ == b@ <==> a.uuid@ == b.uuid@ && a.label@ == b.label@ && a.address == b.address
            && a.global == b.global && a.inactive == b.inactive,
        a@.uuid == a.uuid@,
        a@.label == a.label@,
        a@.address == a.address,
        a@.global == a.global,
        a@.inactive == a.inactive,
        choices_of(choices).len() == choices.len(),
        choices_of(choices)[at] == choices[at]@,
{
}

/// A choice shows its account: a global one as global, an inactive one as inactive, and one without
/// a label under a general one.
pub proof fn choices_show_their_account(account: PublicAccountMetadata)
    ensures
        choice_of(account@).uuid == account.public_account_uuid@,
        choice_of(account@).address == account.address,
        account.display_label matches Some(label) ==> choice_of(account@).label == label@,
        account.display_label is None ==> choice_of(account@).label == "Public account"@,
        choice_of(account@).global <==> account.scope is Global,
        choice_of(account@).inactive <==> account.status == PublicAccountStatus::Inactive,
{
}

/// An account is enrolled exactly where it belongs to the wallet and was chosen.
pub proof fn enrolled_accounts_are_chosen(
    account: AccountId,
    selected: Set<Seq<char>>,
    wallet: Seq<char>,
)
    ensures
        !account.scoped_to(wallet) ==> !enrolled(account, selected, wallet),
        !selected.contains(account.uuid) ==> !enrolled(account, selected, wallet),
        account.scoped_to(wallet) && selected.contains(account.uuid) ==> enrolled(
            account,
            selected,
            wallet,
        ),
{
}

/// Every enrolled account counts once, and among the inactive ones where it is inactive; without a
/// wallet none counts.
pub proof fn enrolled_accounts_count_once(
    accounts: Seq<PublicAccountMetadata>,
    account: PublicAccountMetadata,
    selected: Set<Seq<char>>,
    wallet: Seq<char>,
)
    ensures
        enrolled_count(Seq::empty(), selected, Some(wallet), false) == 0,
        enrolled_count(Seq::empty(), selected, Some(wallet), true) == 0,
        enrolled_count(accounts.push(account), selected, None, false) == enrolled_count(
            accounts,
            selected,
            None,
            false,
        ),
        enrolled(account@, selected, wallet) ==> enrolled_count(
            accounts.push(account),
            selected,
            Some(wallet),
            false,
        ) == enrolled_count(accounts, selected, Some(wallet), false) + 1,
        !enrolled(account@, selected, wallet) ==> enrolled_count(
            accounts.push(account),
            selected,
            Some(wallet),
            false,
        ) == enrolled_count(accounts, selected, Some(wallet), false),
        enrolled(account@, selected, wallet) && account.status == PublicAccountStatus::Inactive
            ==> enrolled_count(accounts.push(account), selected, Some(wallet), true)
            == enrolled_count(accounts, selected, Some(wallet), true) + 1,
        !enrolled(account@, selected, wallet) || account.status == PublicAccountStatus::Active
            ==> enrolled_count(accounts.push(account), selected, Some(wallet), true)
            == enrolled_count(accounts, selected, Some(wallet), true),
{
    assert(accounts.push(account).drop_last() =~= accounts);
}

/// There are never more inactive enrolled accounts than enrolled accounts, nor more enrolled ones
/// than accounts.
pub proof fn inactive_accounts_are_among_the_enrolled(
    accounts: Seq<PublicAccountMetadata>,
    selected: Set<Seq<char>>,
    wallet: Option<Seq<char>>,
)
    ensures
        enrolled_count(accounts, selected, wallet, true) <= enrolled_count(
            accounts,
            selected,
            wallet,
            false,
        ) <= accounts.len(),
    decreases accounts.len(),
{
    if accounts.len() > 0 {
        inactive_accounts_are_among_the_enrolled(accounts.drop_last(), selected, wallet);
    }
}

/// An account is offered where it belongs to the wallet, is active or already chosen, and is what is
/// looked for: by part of its label or of its address, in whatever case.
pub proof fn offered_accounts_can_be_chosen(
    account: AccountId,
    selected: Set<Seq<char>>,
    wallet: Seq<char>,
    wanted: Seq<char>,
)
    ensures
        !offered(account, selected, None, wanted),
        !account.scoped_to(wallet) ==> !offered(account, selected, Some(wallet), wanted),
        account.status == PublicAccountStatus::Inactive && !selected.contains(account.uuid)
            ==> !offered(account, selected, Some(wallet), wanted),
        account.scoped_to(wallet) && account.status == PublicAccountStatus::Active ==> offered(
            account,
            selected,
            Some(wallet),
            Seq::empty(),
        ),
        account.scoped_to(wallet) && selected.contains(account.uuid) ==> offered(
            account,
            selected,
            Some(wallet),
            Seq::empty(),
        ),
        offered(account, selected, Some(wallet), wanted) && wanted.len() > 0 ==> occurs_in(
            wanted,
            address_text(account.address),
        ) || (account.label matches Some(label) && occurs_in(wanted, ascii_lowered(label))),
        account.scoped_to(wallet) && account.status == PublicAccountStatus::Active && occurs_in(
            wanted,
            address_text(account.address),
        ) ==> offered(account, selected, Some(wallet), wanted),
        account.scoped_to(wallet) && account.status == PublicAccountStatus::Active ==> (
        account.label matches Some(label) ==> (occurs_in(wanted, ascii_lowered(label)) ==> offered(
            account,
            selected,
            Some(wallet),
            wanted,
        ))),
{
}

/// The choices are those of the offered accounts, in the order of the accounts.
pub proof fn choices_are_of_the_offered_accounts(
    accounts: Seq<AccountId>,
    account: AccountId,
    selected: Set<Seq<char>>,
    wallet: Option<Seq<char>>,
    wanted: Seq<char>,
)
    ensures
        offered_choices(Seq::empty(), selected, wallet, wanted).len() == 0,
        offered(account, selected, wallet, wanted) ==> offered_choices(
            accounts.push(account),
            selected,
            wallet,
            wanted,
        ) == offered_choices(accounts, selected, wallet, wanted).push(choice_of(account)),
        !offered(account, selected, wallet, wanted) ==> offered_choices(
            accounts.push(account),
            selected,
            wallet,
            wanted,
        ) == offered_choices(accounts, selected, wallet, wanted),
{
    let kept = |account: AccountId| offered(account, selected, wallet, wanted);
    reveal(Seq::filter);
    assert(accounts.push(account).drop_last() =~= accounts);
    assert(offered_choices(accounts.push(account), selected, wallet, wanted) =~= (if kept(account) {
        offered_choices(accounts, selected, wallet, wanted).push(choice_of(account))
    } else {
        offered_choices(accounts, selected, wallet, wanted)
    }));
}

/// A text is among the choices exactly where one has it as its identifier.
pub proof fn identifiers_are_among_their_choices(text: Seq<char>, choices: Seq<Choice>, at: int)
    ensures
        0 <= at < choices.len() ==> among(choices[at].uuid, choices),
        (forall|i: int| 0 <= i < choices.len() ==> (#[trigger] choices[i]).uuid != text) ==> !among(
            text,
            choices,
        ),
{
}

/// An account is found by its identifier where it belongs to the wallet, and the first is taken.
pub proof fn accounts_are_found_in_their_wallet(
    accounts: Seq<AccountId>,
    uuid: Seq<char>,
    wallet: Seq<char>,
    from: int,
)
    requires
        0 <= from <= accounts.len(),
    ensures
        match first_account(accounts, uuid, wallet, from) {
            Some(at) => from <= at < accounts.len() && accounts[at].uuid == uuid
                && accounts[at].scoped_to(wallet) && forall|i: int|
                from <= i < at ==> !((#[trigger] accounts[i]).uuid == uuid && accounts[i].scoped_to(
                    wallet,
                )),
            None => forall|i: int|
                from <= i < accounts.len() ==> !((#[trigger] accounts[i]).uuid == uuid
                    && accounts[i].scoped_to(wallet)),
        },
    decreases accounts.len() - from,
{
    if from < accounts.len() {
        accounts_are_found_in_their_wallet(accounts, uuid, wallet, from + 1);
    }
}

/// The participants are the accounts of the identifiers, in the order of those; an identifier
/// without an account is passed over.
pub proof fn participants_are_in_the_enrolled_order(
    uuids: Seq<Seq<char>>,
    uuid: Seq<char>,
    accounts: Seq<AccountId>,
    wallet: Seq<char>,
)
    ensures
        participants_of(Seq::empty(), accounts, wallet).len() == 0,
        first_account(accounts, uuid, wallet, 0) matches Some(at) ==> participants_of(
            uuids.push(uuid),
            accounts,
            wallet,
        ) == participants_of(uuids, accounts, wallet).push(accounts[at]),
        first_account(accounts, uuid, wallet, 0) is None ==> participants_of(
            uuids.push(uuid),
            accounts,
            wallet,
        ) == participants_of(uuids, accounts, wallet),
{
    assert(uuids.push(uuid).drop_last() =~= uuids);
}

/// Participants are known by identifier and address.
pub proof fn identities_are_of_their_accounts(
    accounts: Seq<AccountId>,
    at: int,
    wallet: Option<&str>,
)
    requires
        0 <= at < accounts.len(),
    ensures
        identities(accounts).len() == accounts.len(),
        identities(accounts)[at].uuid == accounts[at].uuid,
        identities(accounts)[at].address == accounts[at].address,
        wallet matches Some(id) ==> wallet_text(wallet) == Some(id@),
        wallet is None ==> wallet_text(wallet) is None,
{
}

/// Looking is blind to case and to white space around what is looked for.
pub proof fn looking_is_blind_to_case(query: Seq<char>, at: int)
    ensures
        search_text(query).len() == trimmed(query).len(),
        0 <= at < trimmed(query).len() && 'A' <= trimmed(query)[at] <= 'Z' ==> search_text(
            query,
        )[at] as nat == trimmed(query)[at] as nat + 32,
        0 <= at < trimmed(query).len() && !('A' <= trimmed(query)[at] <= 'Z') ==> search_text(
            query,
        )[at] == trimmed(query)[at],
{
    if 0 <= at < trimmed(query).len() {
        crate::text::lowering_changes_capitals_alone(trimmed(query), at);
    }
}

/// An address is looked through as it is written, which reads back.
pub proof fn addresses_are_looked_through_as_written(address: Address)
    ensures
        crate::address::parsed_address(address_text(address)) == Some(address.value()),
        address_text(address).len() == 42,
        address_text(address)[0] == '0',
        address_text(address)[1] == 'x',
{
    crate::address::address_text_reads_back(address);
    assert(crate::address::without_prefix(address_text(address)).len() == 40);
}

/// Everything that is told of a `ParticipantChoice` is its own, under its own name.
pub proof fn participant_choice_is_told_as_it_is(kept: ParticipantChoice)
    ensures
        kept@.uuid == kept.uuid@,
        kept@.label == kept.label@,
        kept@.address == kept.address,
        kept@.global == kept.global,
        kept@.inactive == kept.inactive,
{
}

} // verus!
