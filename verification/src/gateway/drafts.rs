//! Drafts of transactions that a paired extension composes and the desktop app submits.
use crate::address::{hex_bytes, hex_encode};
use crate::text::same_text;
use vstd::prelude::*;

verus! {

/// Where a draft stands.
#[derive(Clone, Copy, Debug, PartialEq, Eq, Structural)]
pub enum GatewayDraftStatus {
    Editing,
    Estimating,
    Ready,
    /// The draft was submitted, and waits for the desktop app.
    Attention,
    Failed,
}

/// How a draft was prepared.
#[derive(Clone, Copy, Debug, PartialEq, Eq, Structural)]
pub enum PreparedDraftKind {
    Private,
    PrivateSelfBroadcast,
}

/// A draft, as the desktop app keeps it for one extension.
pub struct DraftRecord {
    pub draft_id: String,
    pub revision: u64,
    pub status: GatewayDraftStatus,
    pub message: String,
    /// The wallet session that the draft was opened in.
    pub wallet: u64,
    pub wallet_generation: u64,
    /// Whether the draft was submitted.
    pub executing: bool,
    /// Whether an estimate is under way.
    pub estimating: bool,
    pub prepared: Option<PreparedDraftKind>,
    /// When the draft was last estimated, in nanoseconds on one monotonic clock.
    pub estimated_at: Option<u128>,
    /// Whether the fee is shown that the chain suggests.
    pub gas_quoted: bool,
}

/// What a result or a command is about: a draft in one revision.
pub struct DraftVersion<'a> {
    pub draft_id: &'a str,
    pub revision: u64,
}

/// The wallet that is open.
#[derive(Clone, Copy, Debug, PartialEq, Eq, Structural)]
pub struct OpenWallet {
    /// The session, where the wallet is unlocked.
    pub session: Option<u64>,
    pub generation: u64,
}

/// Whether a result is about the draft as it stands: the same revision, not yet submitted, and in
/// the wallet that is open.
pub open spec fn draft_current(record: DraftRecord, version: DraftVersion, wallet: OpenWallet) -> bool {
    &&& record.draft_id@ == version.draft_id@
    &&& record.revision == version.revision
    &&& !record.executing
    &&& record.wallet_generation == wallet.generation
    &&& wallet.session == Some(record.wallet)
}

/// Whether a result is about the draft as it stands.
pub fn draft_is_current(record: &DraftRecord, version: &DraftVersion, wallet: OpenWallet) -> (
    current: bool)
    ensures
        current == draft_current(*record, *version, wallet),
{
    same_text(&record.draft_id, version.draft_id) && record.revision == version.revision
        && !record.executing && record.wallet_generation == wallet.generation
        && wallet.session == Some(record.wallet)
}

/// The time since `at`.
pub open spec fn elapsed(at: u128, now: u128) -> nat {
    if now >= at {
        (now - at) as nat
    } else {
        0
    }
}

/// Whether something happened less than `lifetime` ago.
pub open spec fn happened_within(at: Option<u128>, now: u128, lifetime: u128) -> bool {
    at matches Some(then) && elapsed(then, now) < lifetime
}

/// Whether something happened less than `lifetime` ago.
pub fn is_within(at: Option<u128>, now: u128, lifetime: u128) -> (within: bool)
    ensures
        within == happened_within(at, now, lifetime),
{
    match at {
        Some(then) => now.saturating_sub(then) < lifetime,
        None => false,
    }
}

/// The draft after it was sent back to editing, with a message.
pub open spec fn sent_back(before: DraftRecord, after: DraftRecord, message: Seq<char>) -> bool {
    after.message@ == message && after == (DraftRecord {
        status: GatewayDraftStatus::Editing,
        message: after.message,
        ..before
    })
}

/// Sends a draft back to editing, with a message.
pub fn send_back(record: &mut DraftRecord, message: &str)
    ensures
        sent_back(*old(record), *final(record), message@),
{
    record.status = GatewayDraftStatus::Editing;
    record.message = message.to_owned();
}

/// Calls `rand::random` of rand for sixteen bytes. Any bytes may come back.
#[verifier::external_body]
fn rand_sixteen_bytes() -> (bytes: [u8; 16]) {
    rand::random::<[u8; 16]>()
}

/// The identifier that these bytes give a submission.
pub fn execution_id_of(bytes: &[u8; 16]) -> (id: String)
    ensures
        id@ == hex_bytes(bytes@),
{
    hex_encode(bytes.as_slice())
}

/// A new identifier for a submission: thirty-two hexadecimal digits of random bytes.
pub fn new_execution_id() -> (id: String)
    ensures
        exists|bytes: Seq<u8>| bytes.len() == 16 && id@ == #[trigger] hex_bytes(bytes),
{
    let bytes = rand_sixteen_bytes();
    let id = execution_id_of(&bytes);
    assert(bytes@.len() == 16 && id@ == hex_bytes(bytes@));
    id
}

/// A result is taken only for the draft and the revision that it was made for, in the wallet that the
/// draft was opened in, and not once the draft is submitted.
pub proof fn results_are_of_the_draft(record: DraftRecord, version: DraftVersion, wallet: OpenWallet)
    ensures
        record.draft_id@ != version.draft_id@ ==> !draft_current(record, version, wallet),
        record.revision != version.revision ==> !draft_current(record, version, wallet),
        record.executing ==> !draft_current(record, version, wallet),
        record.wallet_generation != wallet.generation ==> !draft_current(record, version, wallet),
        wallet.session is None ==> !draft_current(record, version, wallet),
        wallet.session matches Some(open) ==> (draft_current(record, version, wallet) <==> open
            == record.wallet && record.wallet_generation == wallet.generation && !record.executing
            && record.revision == version.revision && record.draft_id@ == version.draft_id@),
{
}

/// What happened at a time is within a lifetime until exactly that much time has passed.
pub proof fn lifetimes_end_on_time(at: u128, now: u128, later: u128, lifetime: u128)
    ensures
        !happened_within(None, now, lifetime),
        at <= now ==> (happened_within(Some(at), now, lifetime) <==> now < at + lifetime),
        now < at ==> (happened_within(Some(at), now, lifetime) <==> lifetime > 0),
        now <= later && happened_within(Some(at), later, lifetime) ==> happened_within(
            Some(at),
            now,
            lifetime,
        ),
        at <= now ==> at + elapsed(at, now) == now,
        now <= at ==> elapsed(at, now) == 0,
{
}

/// A draft that is sent back can be edited again, with the message, and is otherwise as it was.
pub proof fn drafts_sent_back_can_be_edited(
    before: DraftRecord,
    after: DraftRecord,
    message: Seq<char>,
)
    requires
        sent_back(before, after, message),
    ensures
        after.status is Editing,
        after.message@ == message,
        after.draft_id == before.draft_id,
        after.revision == before.revision,
        after.wallet == before.wallet,
        after.wallet_generation == before.wallet_generation,
        after.executing == before.executing,
        after.estimating == before.estimating,
        after.prepared == before.prepared,
        after.estimated_at == before.estimated_at,
        after.gas_quoted == before.gas_quoted,
{
}

} // verus!
