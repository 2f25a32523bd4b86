//! Response messages: the decoded tables of one size-prefixed response, the
//! semantic checks every batch, command and snapshot in it must pass, and the
//! checked view.
use crate::command_kinds::{
    expected_payload, lemma_payload_pairing, payload_for, serves, CoreCommandKind, CoreCommandPayload,
};
use crate::error::{first_failure, lemma_first_failure_none, ProtocolError};
use crate::framing::{check_framing, spec_framing, FramingFailure};
use crate::uuid::{is_nil, nil, same_uuid};
use vstd::prelude::*;
use vstd::string::{StringExecFns, StringSliceAdditionalSpecFns};

verus! {

// ---------------------------------------------------------------------------
// Tables

/// A command kind as the wire carries it.
#[derive(Clone, Copy, Debug, PartialEq, Eq, Structural)]
pub enum CommandKindCode {
    /// A kind this schema revision admits in responses.
    Admitted(CoreCommandKind),
    /// A kind the schema names but responses may not carry.
    NotAdmitted,
    /// An ordinal the schema does not name.
    Unknown,
}

/// The wire `CoreCommand` table.
#[derive(Debug)]
pub struct CoreCommandTable {
    /// Command UUID bytes.
    pub command_id: [u8; 16],
    /// Command kind.
    pub kind: CommandKindCode,
    /// Union payload type; `None` for an absent or unnamed payload.
    pub payload_type: Option<CoreCommandPayload>,
    /// The verdict of the visual-element payload rules on the payload, for
    /// the four visual-element kinds: the failure text, if the payload is
    /// refused.
    pub payload_failure: Option<String>,
}

/// The wire `CommandEntry` union.
#[derive(Debug)]
pub enum CommandEntryTable {
    /// A core command entry, with its payload when present.
    Core(Option<CoreCommandTable>),
    /// Any other entry type.
    Other,
}

/// The wire `BatchStart` enum.
#[derive(Clone, Copy, Debug, PartialEq, Eq, Structural)]
pub enum BatchStartCode {
    /// The batch may begin immediately.
    Now,
    /// Wait through all earlier blocking work.
    AfterEarlierBlockingWork,
    /// Wait through earlier asset preparation.
    AfterEarlierAssetPreparation,
    /// An ordinal the schema does not name.
    Unknown,
}

/// The wire `Batch` table.
#[derive(Debug)]
pub struct BatchTable {
    /// Batch UUID bytes.
    pub batch_id: [u8; 16],
    /// Session UUID bytes.
    pub session_id: [u8; 16],
    /// UUID bytes of the action that caused the batch, if any.
    pub caused_by_action_id: Option<[u8; 16]>,
    /// Start dependency.
    pub start: BatchStartCode,
    /// Owning work scope, if any.
    pub work_scope: Option<u64>,
    /// Cancelled work scope, if this is a cleanup batch.
    pub cancel_scope: Option<u64>,
    /// Parallel groups, each an ordered list of command entries.
    pub groups: Vec<Vec<CommandEntryTable>>,
}

/// The wire `Snapshot` table, as far as the response checks read it.
#[derive(Debug)]
pub struct SnapshotTable {
    /// Session UUID bytes.
    pub session_id: [u8; 16],
    /// The verdict of the snapshot content rules: the failure text, if the
    /// snapshot is refused.
    pub content_failure: Option<String>,
}

/// The wire `ResponseMessageEntry` union.
#[derive(Debug)]
pub enum ResponseMessageTable {
    /// A batch entry, with its payload when present.
    Batch(Option<BatchTable>),
    /// A snapshot entry, with its payload when present.
    Snapshot(Option<SnapshotTable>),
    /// Any other message type.
    Unknown,
}

/// The wire `Response` root table.
#[derive(Debug)]
pub struct ResponseTable {
    /// Session UUID bytes.
    pub session_id: [u8; 16],
    /// Ordered response messages.
    pub messages: Vec<ResponseMessageTable>,
}

// ---------------------------------------------------------------------------
// Rules

/// The four kinds whose payloads the visual-element rules check.
pub open spec fn is_visual_element(k: CoreCommandKind) -> bool {
    ||| k == CoreCommandKind::VisualElementCreate
    ||| k == CoreCommandKind::VisualElementUpdate
    ||| k == CoreCommandKind::VisualElementDestroy
    ||| k == CoreCommandKind::VisualElementPerformAction
}

/// Why one core command is refused, if it is.
pub open spec fn command_failure(c: CoreCommandTable) -> Option<Seq<char>> {
    if is_nil(c.command_id@) {
        Some("command UUID is zero"@)
    } else {
        match c.kind {
            CommandKindCode::Unknown => Some("response command kind is unknown"@),
            CommandKindCode::NotAdmitted => Some(
                "response command kind is not admitted by this schema revision"@,
            ),
            CommandKindCode::Admitted(k) => if c.payload_type != Some(payload_for(k)) {
                Some("response command kind/payload mismatch"@)
            } else if is_visual_element(k) && c.payload_failure is Some {
                Some(c.payload_failure->Some_0@)
            } else {
                None
            },
        }
    }
}

/// Whether the command destroys an object or a visual element.
pub open spec fn destroys(c: CoreCommandTable) -> bool {
    ||| c.kind == CommandKindCode::Admitted(CoreCommandKind::VisualElementDestroy)
    ||| c.kind == CommandKindCode::Admitted(CoreCommandKind::ObjectDestroy)
}

/// Why one command entry is refused, if it is; `cleanup` marks a cancellation
/// batch.
pub open spec fn entry_failure(e: CommandEntryTable, cleanup: bool) -> Option<Seq<char>> {
    match e {
        CommandEntryTable::Other => Some("core command entry kind is unknown"@),
        CommandEntryTable::Core(None) => Some("core command entry payload is absent"@),
        CommandEntryTable::Core(Some(c)) => if cleanup && !destroys(c) {
            Some("cancellation cleanup may only destroy objects"@)
        } else {
            command_failure(c)
        },
    }
}

/// The entry check at each index of `entries`.
pub open spec fn entry_check(entries: Seq<CommandEntryTable>, cleanup: bool) -> spec_fn(int) -> Option<
    Seq<char>,
> {
    |i: int| entry_failure(entries[i], cleanup)
}

/// Why one parallel group is refused, if it is.
pub open spec fn group_failure(entries: Seq<CommandEntryTable>, cleanup: bool) -> Option<Seq<char>> {
    if entries.len() == 0 {
        Some("parallel group has no commands"@)
    } else {
        first_failure(entries.len() as int, entry_check(entries, cleanup), 0)
    }
}

/// The group check at each index of `groups`.
pub open spec fn group_check(groups: Seq<Vec<CommandEntryTable>>, cleanup: bool) -> spec_fn(
    int,
) -> Option<Seq<char>> {
    |i: int| group_failure(groups[i]@, cleanup)
}

/// Why one batch of a response for `session` is refused, if it is.
pub open spec fn batch_failure(b: BatchTable, session: Seq<u8>) -> Option<Seq<char>> {
    if is_nil(b.batch_id@) {
        Some("batch UUID is zero"@)
    } else if is_nil(b.session_id@) {
        Some("batch session UUID is zero"@)
    } else if b.session_id@ != session {
        Some("batch response session mismatch"@)
    } else if b.caused_by_action_id is Some && is_nil(b.caused_by_action_id->Some_0@) {
        Some("causing action UUID is zero"@)
    } else if b.start == BatchStartCode::Unknown {
        Some("batch start is unknown"@)
    } else if b.work_scope == Some(0u64) || b.cancel_scope == Some(0u64) {
        Some("work scope must be nonzero"@)
    } else if b.cancel_scope is Some && (b.work_scope is Some || b.start != BatchStartCode::Now) {
        Some("cancellation must be independent unowned work"@)
    } else if b.cancel_scope is None && b.groups@.len() == 0 {
        Some("batch has no parallel groups"@)
    } else {
        first_failure(b.groups@.len() as int, group_check(b.groups@, b.cancel_scope is Some), 0)
    }
}

/// Why one snapshot of a response for `session` is refused, if it is.
pub open spec fn snapshot_failure(s: SnapshotTable, session: Seq<u8>) -> Option<Seq<char>> {
    if is_nil(s.session_id@) {
        Some("snapshot session UUID is zero"@)
    } else if s.session_id@ != session {
        Some("snapshot response session mismatch"@)
    } else {
        match s.content_failure {
            Some(m) => Some(m@),
            None => None,
        }
    }
}

/// Why one response message for `session` is refused, if it is.
pub open spec fn message_failure(m: ResponseMessageTable, session: Seq<u8>) -> Option<Seq<char>> {
    match m {
        ResponseMessageTable::Batch(Some(b)) => batch_failure(b, session),
        ResponseMessageTable::Snapshot(Some(s)) => snapshot_failure(s, session),
        ResponseMessageTable::Batch(None) => Some("response message kind/payload mismatch"@),
        ResponseMessageTable::Snapshot(None) => Some("response message kind/payload mismatch"@),
        ResponseMessageTable::Unknown => Some("response message kind is unknown"@),
    }
}

/// The message check at each index of `messages`.
pub open spec fn message_check(messages: Seq<ResponseMessageTable>, session: Seq<u8>) -> spec_fn(
    int,
) -> Option<Seq<char>> {
    |i: int| message_failure(messages[i], session)
}

/// Why a decoded response is refused, if it is: the first failure in order.
pub open spec fn response_failure(t: ResponseTable) -> Option<Seq<char>> {
    if is_nil(t.session_id@) {
        Some("response session UUID is zero"@)
    } else {
        first_failure(t.messages@.len() as int, message_check(t.messages@, t.session_id@), 0)
    }
}

// ---------------------------------------------------------------------------
// Checks

/// Checks one core command: a nonzero UUID, an admitted kind, the payload
/// table that kind requires, and, for visual-element kinds, the payload rules.
pub fn validate_command(c: &CoreCommandTable) -> (r: Result<(), ProtocolError>)
    ensures
        match r {
            Ok(()) => command_failure(*c) is None,
            Err(e) => command_failure(*c) == Some(e@),
        },
{
    if nil(&c.command_id) {
        return Err(ProtocolError::new("command UUID is zero"));
    }
    let kind = match c.kind {
        CommandKindCode::Admitted(k) => k,
        CommandKindCode::NotAdmitted => {
            return Err(
                ProtocolError::new("response command kind is not admitted by this schema revision"),
            );
        },
        CommandKindCode::Unknown => {
            return Err(ProtocolError::new("response command kind is unknown"));
        },
    };
    let expected = expected_payload(kind);
    let matches_payload = match c.payload_type {
        Some(p) => p == expected,
        None => false,
    };
    if !matches_payload {
        return Err(ProtocolError::new("response command kind/payload mismatch"));
    }
    let visual = match kind {
        CoreCommandKind::VisualElementCreate => true,
        CoreCommandKind::VisualElementUpdate => true,
        CoreCommandKind::VisualElementDestroy => true,
        CoreCommandKind::VisualElementPerformAction => true,
        _ => false,
    };
    if visual {
        match &c.payload_failure {
            Some(m) => {
                return Err(ProtocolError::new(m.as_str()));
            },
            None => {},
        }
    }
    Ok(())
}

fn validate_entry(e: &CommandEntryTable, cleanup: bool) -> (r: Result<(), ProtocolError>)
    ensures
        match r {
            Ok(()) => entry_failure(*e, cleanup) is None,
            Err(err) => entry_failure(*e, cleanup) == Some(err@),
        },
{
    match e {
        CommandEntryTable::Other => Err(ProtocolError::new("core command entry kind is unknown")),
        CommandEntryTable::Core(None) => Err(
            ProtocolError::new("core command entry payload is absent"),
        ),
        CommandEntryTable::Core(Some(c)) => {
            let destroying = match c.kind {
                CommandKindCode::Admitted(CoreCommandKind::VisualElementDestroy) => true,
                CommandKindCode::Admitted(CoreCommandKind::ObjectDestroy) => true,
                _ => false,
            };
            if cleanup && !destroying {
                return Err(ProtocolError::new("cancellation cleanup may only destroy objects"));
            }
            validate_command(c)
        },
    }
}

fn validate_group(entries: &Vec<CommandEntryTable>, cleanup: bool) -> (r: Result<
    (),
    ProtocolError,
>)
    ensures
        match r {
            Ok(()) => group_failure(entries@, cleanup) is None,
            Err(e) => group_failure(entries@, cleanup) == Some(e@),
        },
{
    if entries.len() == 0 {
        return Err(ProtocolError::new("parallel group has no commands"));
    }
    let ghost n = entries@.len() as int;
    let mut k: usize = 0;
    while k < entries.len()
        invariant
            k <= entries@.len(),
            n == entries@.len(),
            first_failure(n, entry_check(entries@, cleanup), 0) == first_failure(
                n,
                entry_check(entries@, cleanup),
                k as int,
            ),
        decreases entries@.len() - k,
    {
        match validate_entry(&entries[k], cleanup) {
            Err(e) => {
                proof {
                    assert(entry_check(entries@, cleanup)(k as int) == Some(e@));
                }
                return Err(e);
            },
            Ok(()) => {
                proof {
                    assert(entry_check(entries@, cleanup)(k as int) is None);
                }
            },
        }
        k += 1;
    }
    Ok(())
}

fn validate_batch(b: &BatchTable, session: &[u8; 16]) -> (r: Result<(), ProtocolError>)
    ensures
        match r {
            Ok(()) => batch_failure(*b, session@) is None,
            Err(e) => batch_failure(*b, session@) == Some(e@),
        },
{
    if nil(&b.batch_id) {
        return Err(ProtocolError::new("batch UUID is zero"));
    }
    if nil(&b.session_id) {
        return Err(ProtocolError::new("batch session UUID is zero"));
    }
    if !same_uuid(&b.session_id, session) {
        return Err(ProtocolError::new("batch response session mismatch"));
    }
    match &b.caused_by_action_id {
        Some(action) => {
            if nil(action) {
                return Err(ProtocolError::new("causing action UUID is zero"));
            }
        },
        None => {},
    }
    let now = match b.start {
        BatchStartCode::Unknown => {
            return Err(ProtocolError::new("batch start is unknown"));
        },
        BatchStartCode::Now => true,
        _ => false,
    };
    let zero_work = match b.work_scope {
        Some(w) => w == 0,
        None => false,
    };
    let zero_cancel = match b.cancel_scope {
        Some(c) => c == 0,
        None => false,
    };
    if zero_work || zero_cancel {
        return Err(ProtocolError::new("work scope must be nonzero"));
    }
    let cleanup = b.cancel_scope.is_some();
    if cleanup {
        if b.work_scope.is_some() || !now {
            return Err(ProtocolError::new("cancellation must be independent unowned work"));
        }
    } else if b.groups.len() == 0 {
        return Err(ProtocolError::new("batch has no parallel groups"));
    }
    let ghost groups = b.groups@;
    let ghost n = groups.len() as int;
    assert(batch_failure(*b, session@) == first_failure(n, group_check(groups, cleanup), 0));
    let mut k: usize = 0;
    while k < b.groups.len()
        invariant
            k <= groups.len(),
            groups == b.groups@,
            n == groups.len(),
            cleanup == (b.cancel_scope is Some),
            batch_failure(*b, session@) == first_failure(n, group_check(groups, cleanup), 0),
            first_failure(n, group_check(groups, cleanup), 0) == first_failure(
                n,
                group_check(groups, cleanup),
                k as int,
            ),
        decreases groups.len() - k,
    {
        match validate_group(&b.groups[k], cleanup) {
            Err(e) => {
                proof {
                    assert(group_check(groups, cleanup)(k as int) == Some(e@));
                }
                return Err(e);
            },
            Ok(()) => {
                proof {
                    assert(group_check(groups, cleanup)(k as int) is None);
                }
            },
        }
        k += 1;
    }
    Ok(())
}

fn validate_snapshot(s: &SnapshotTable, session: &[u8; 16]) -> (r: Result<(), ProtocolError>)
    ensures
        match r {
            Ok(()) => snapshot_failure(*s, session@) is None,
            Err(e) => snapshot_failure(*s, session@) == Some(e@),
        },
{
    if nil(&s.session_id) {
        return Err(ProtocolError::new("snapshot session UUID is zero"));
    }
    if !same_uuid(&s.session_id, session) {
        return Err(ProtocolError::new("snapshot response session mismatch"));
    }
    match &s.content_failure {
        Some(m) => Err(ProtocolError::new(m.as_str())),
        None => Ok(()),
    }
}

fn validate_message(m: &ResponseMessageTable, session: &[u8; 16]) -> (r: Result<
    (),
    ProtocolError,
>)
    ensures
        match r {
            Ok(()) => message_failure(*m, session@) is None,
            Err(e) => message_failure(*m, session@) == Some(e@),
        },
{
    match m {
        ResponseMessageTable::Batch(Some(b)) => validate_batch(b, session),
        ResponseMessageTable::Snapshot(Some(s)) => validate_snapshot(s, session),
        ResponseMessageTable::Batch(None) => Err(
            ProtocolError::new("response message kind/payload mismatch"),
        ),
        ResponseMessageTable::Snapshot(None) => Err(
            ProtocolError::new("response message kind/payload mismatch"),
        ),
        ResponseMessageTable::Unknown => Err(ProtocolError::new("response message kind is unknown")),
    }
}

/// Checks a decoded response: a nonzero session, then every message in order.
pub fn validate_response(t: &ResponseTable) -> (r: Result<(), ProtocolError>)
    ensures
        match r {
            Ok(()) => response_failure(*t) is None,
            Err(e) => response_failure(*t) == Some(e@),
        },
{
    if nil(&t.session_id) {
        return Err(ProtocolError::new("response session UUID is zero"));
    }
    let ghost messages = t.messages@;
    let ghost session = t.session_id@;
    let ghost n = messages.len() as int;
    assert(response_failure(*t) == first_failure(n, message_check(messages, session), 0));
    let mut k: usize = 0;
    while k < t.messages.len()
        invariant
            response_failure(*t) == first_failure(n, message_check(messages, session), 0),
            k <= messages.len(),
            messages == t.messages@,
            session == t.session_id@,
            n == messages.len(),
            first_failure(n, message_check(messages, session), 0) == first_failure(
                n,
                message_check(messages, session),
                k as int,
            ),
        decreases messages.len() - k,
    {
        match validate_message(&t.messages[k], &t.session_id) {
            Err(e) => {
                proof {
                    assert(message_check(messages, session)(k as int) == Some(e@));
                }
                return Err(e);
            },
            Ok(()) => {
                proof {
                    assert(message_check(messages, session)(k as int) is None);
                }
            },
        }
        k += 1;
    }
    Ok(())
}


// ---------------------------------------------------------------------------
// Laws

/// An accepted command carries a nonzero UUID, an admitted kind, and exactly
/// the payload table that kind requires.
pub proof fn lemma_accepted_command(c: CoreCommandTable)
    requires
        command_failure(c) is None,
    ensures
        !is_nil(c.command_id@),
        c.kind is Admitted,
        c.payload_type == Some(payload_for(c.kind->Admitted_0)),
        serves(c.payload_type->Some_0, c.kind->Admitted_0),
{
    lemma_payload_pairing(c.kind->Admitted_0, c.payload_type->Some_0);
}

/// Every entry of an accepted batch is a present core command that is itself
/// accepted.
pub proof fn lemma_accepted_batch_commands(b: BatchTable, session: Seq<u8>, g: int, k: int)
    requires
        batch_failure(b, session) is None,
        0 <= g < b.groups@.len(),
        0 <= k < b.groups@[g]@.len(),
    ensures
        b.groups@[g]@[k] is Core,
        b.groups@[g]@[k]->Core_0 is Some,
        command_failure(b.groups@[g]@[k]->Core_0->Some_0) is None,
{
    let cleanup = b.cancel_scope is Some;
    let groups = b.groups@;
    lemma_first_failure_none(groups.len() as int, group_check(groups, cleanup), 0, g);
    assert(group_check(groups, cleanup)(g) is None);
    let entries = groups[g]@;
    lemma_first_failure_none(entries.len() as int, entry_check(entries, cleanup), 0, k);
    assert(entry_check(entries, cleanup)(k) is None);
}

/// Every command of an accepted cancellation batch is a core command that
/// destroys an object or a visual element and is itself accepted, and the
/// batch is unowned work that starts at once.
pub proof fn lemma_accepted_cleanup_batch(b: BatchTable, session: Seq<u8>, g: int, k: int)
    requires
        batch_failure(b, session) is None,
        b.cancel_scope is Some,
        0 <= g < b.groups@.len(),
        0 <= k < b.groups@[g]@.len(),
    ensures
        b.work_scope is None,
        b.start == BatchStartCode::Now,
        b.cancel_scope->Some_0 != 0,
        b.groups@[g]@[k] is Core,
        b.groups@[g]@[k]->Core_0 is Some,
        destroys(b.groups@[g]@[k]->Core_0->Some_0),
        command_failure(b.groups@[g]@[k]->Core_0->Some_0) is None,
{
    let groups = b.groups@;
    lemma_first_failure_none(groups.len() as int, group_check(groups, true), 0, g);
    assert(group_check(groups, true)(g) is None);
    let entries = groups[g]@;
    lemma_first_failure_none(entries.len() as int, entry_check(entries, true), 0, k);
    assert(entry_check(entries, true)(k) is None);
}

/// Every message of an accepted response is a batch or a snapshot of the
/// response's own, nonzero session; an ordinary batch has at least one
/// parallel group and every group at least one command.
pub proof fn lemma_accepted_response(t: ResponseTable, i: int)
    requires
        response_failure(t) is None,
        0 <= i < t.messages@.len(),
    ensures
        !is_nil(t.session_id@),
        match t.messages@[i] {
            ResponseMessageTable::Batch(Some(b)) => {
                &&& b.session_id@ == t.session_id@
                &&& !is_nil(b.batch_id@)
                &&& batch_failure(b, t.session_id@) is None
                &&& b.cancel_scope is None ==> b.groups@.len() > 0
                &&& forall|g: int| 0 <= g < b.groups@.len() ==> (#[trigger] b.groups@[g])@.len() > 0
            },
            ResponseMessageTable::Snapshot(Some(s)) => {
                &&& s.session_id@ == t.session_id@
                &&& s.content_failure is None
            },
            _ => false,
        },
{
    let messages = t.messages@;
    lemma_first_failure_none(messages.len() as int, message_check(messages, t.session_id@), 0, i);
    assert(message_check(messages, t.session_id@)(i) is None);
    match messages[i] {
        ResponseMessageTable::Batch(Some(b)) => {
            assert forall|g: int| 0 <= g < b.groups@.len() implies (#[trigger] b.groups@[g])@.len()
                > 0 by {
                let cleanup = b.cancel_scope is Some;
                lemma_first_failure_none(
                    b.groups@.len() as int,
                    group_check(b.groups@, cleanup),
                    0,
                    g,
                );
                assert(group_check(b.groups@, cleanup)(g) is None);
            }
        },
        _ => {},
    }
}

// ---------------------------------------------------------------------------
// Reading

/// The text of a framing failure of a response.
pub open spec fn framing_text(f: FramingFailure) -> Seq<char> {
    match f {
        FramingFailure::TooLarge => "response exceeds 16 MiB"@,
        FramingFailure::SizePrefixMismatch => "response size prefix does not match its finished range"@,
        FramingFailure::WrongIdentifier => "response has the wrong file identifier"@,
    }
}

/// The verdict of reading a response from `bytes`, whose tables the
/// FlatBuffers verifier decoded as `decoded` (or refused with that text).
pub open spec fn spec_read(bytes: Seq<u8>, ident: Seq<u8>, decoded: Result<ResponseTable, String>) -> Result<
    (),
    Seq<char>,
> {
    match spec_framing(bytes, ident) {
        Err(f) => Err(framing_text(f)),
        Ok(()) => match decoded {
            Err(detail) => Err("invalid response FlatBuffer: "@ + detail@),
            Ok(t) => match response_failure(t) {
                Some(m) => Err(m),
                None => Ok(()),
            },
        },
    }
}

/// A structurally verified, semantically checked response.
pub struct ResponseView {
    value: ResponseTable,
}

impl ResponseView {
    /// The viewed table.
    pub closed spec fn table(&self) -> ResponseTable {
        self.value
    }

    #[verifier::type_invariant]
    closed spec fn checked(&self) -> bool {
        response_failure(self.value) is None
    }

    /// Verifies and validates one complete size-prefixed response: its framing
    /// under the response file identifier `ident`, the FlatBuffers verifier's
    /// verdict `decoded` on its tables, and the response rules.
    pub fn read(bytes: &[u8], ident: &str, decoded: Result<ResponseTable, String>) -> (r: Result<
        Self,
        ProtocolError,
    >)
        requires
            ident.spec_bytes().len() == 4,
        ensures
            match r {
                Ok(view) => spec_read(bytes@, ident.spec_bytes(), decoded) is Ok && decoded is Ok
                    && view.table() == decoded->Ok_0,
                Err(e) => spec_read(bytes@, ident.spec_bytes(), decoded) == Err::<(), Seq<char>>(
                    e@,
                ),
            },
    {
        match check_framing(bytes, ident) {
            Err(FramingFailure::TooLarge) => {
                return Err(ProtocolError::new("response exceeds 16 MiB"));
            },
            Err(FramingFailure::SizePrefixMismatch) => {
                return Err(
                    ProtocolError::new("response size prefix does not match its finished range"),
                );
            },
            Err(FramingFailure::WrongIdentifier) => {
                return Err(ProtocolError::new("response has the wrong file identifier"));
            },
            Ok(()) => {},
        }
        let value = match decoded {
            Ok(value) => value,
            Err(detail) => {
                return Err(
                    ProtocolError::from_message(
                        "invalid response FlatBuffer: ".to_owned().concat(detail.as_str()),
                    ),
                );
            },
        };
        validate_response(&value)?;
        Ok(ResponseView { value })
    }

    /// Returns the canonical response session UUID bytes.
    pub fn session_id(&self) -> (r: [u8; 16])
        ensures
            r == self.table().session_id,
            !is_nil(r@),
    {
        proof {
            use_type_invariant(self);
        }
        self.value.session_id
    }

    /// Returns the number of ordered response messages.
    pub fn message_count(&self) -> (r: usize)
        ensures
            r == self.table().messages@.len(),
    {
        self.value.messages.len()
    }

    /// The checked table.
    pub fn raw(&self) -> (r: &ResponseTable)
        ensures
            *r == self.table(),
            response_failure(*r) is None,
    {
        proof {
            use_type_invariant(self);
        }
        &self.value
    }
}

} // verus!
