//! Evidence collection: the protocol that makes the platform's report
//! interface sign a report over a freshness nonce.
//!
//! The interface is a directory-scoped transaction: a working scope is opened
//! under the interface's root, slots inside it are written and read, and the
//! scope is closed. The decisions are made here, one step at a time: the
//! caller performs the pending action on the platform and comes back with
//! what happened.

use vstd::prelude::*;
use vstd::string::*;
use vstd::slice::slice_subrange;
use vstd::slice::slice_to_vec;
use crate::error::AgentError;
use crate::encoding::{base64_encode, base64_fits, base64_text, fits_base64};

verus! {

/// The length in bytes that a freshness nonce must have.
pub const NONCE_LEN: usize = 64;

/// The byte of a double quote, which may surround a nonce in transit.
pub const QUOTE: u8 = 0x22;

/// A sequence without its leading items that satisfy `drop`.
pub open spec fn strip_front<A>(s: Seq<A>, drop: spec_fn(A) -> bool) -> Seq<A>
    decreases s.len(),
{
    if s.len() > 0 && drop(s[0]) {
        strip_front(s.subrange(1, s.len() as int), drop)
    } else {
        s
    }
}

/// A sequence without its trailing items that satisfy `drop`.
pub open spec fn strip_back<A>(s: Seq<A>, drop: spec_fn(A) -> bool) -> Seq<A>
    decreases s.len(),
{
    if s.len() > 0 && drop(s[s.len() - 1]) {
        strip_back(s.subrange(0, s.len() - 1), drop)
    } else {
        s
    }
}

/// A sequence without the items at either end that satisfy `drop`.
pub open spec fn stripped<A>(s: Seq<A>, drop: spec_fn(A) -> bool) -> Seq<A> {
    strip_back(strip_front(s, drop), drop)
}

/// Whether a character is white space (the Unicode property `White_Space`).
pub open spec fn is_space(c: char) -> bool {
    let n = c as u32;
    (0x09 <= n && n <= 0x0D) || n == 0x20 || n == 0x85 || n == 0xA0 || n == 0x1680 || (0x2000 <= n
        && n <= 0x200A) || n == 0x2028 || n == 0x2029 || n == 0x202F || n == 0x205F || n == 0x3000
}

/// A text without the white space at its two ends.
pub open spec fn trimmed(s: Seq<char>) -> Seq<char> {
    stripped(s, |c: char| is_space(c))
}

/// The bytes of a nonce without the double quotes that surround it.
pub open spec fn unquoted(s: Seq<u8>) -> Seq<u8> {
    stripped(s, |b: u8| b == QUOTE)
}

/// The technologies whose report interface is known.
#[derive(Debug, Clone, Copy, PartialEq, Eq, Structural)]
pub enum TeeKind {
    /// AMD SEV-SNP, whose provider is `sev_guest`.
    AmdSevSnp,
    /// Intel TDX, whose provider is `tdx_guest`.
    IntelTdx,
}

impl TeeKind {
    /// The identifier by which the broker knows the technology.
    pub open spec fn name_spec(self) -> Seq<char> {
        match self {
            TeeKind::AmdSevSnp => "amd-sev-snp"@,
            TeeKind::IntelTdx => "intel-tdx"@,
        }
    }

    /// Whether a report of this technology needs the caller's privilege level
    /// configured before it is read.
    pub open spec fn needs_privilege_level_spec(self) -> bool {
        self == TeeKind::AmdSevSnp
    }

    /// The identifier by which the broker knows the technology.
    pub fn name(&self) -> (r: &'static str)
        ensures
            r@ == self.name_spec(),
    {
        match self {
            TeeKind::AmdSevSnp => "amd-sev-snp",
            TeeKind::IntelTdx => "intel-tdx",
        }
    }

    /// Whether a report of this technology needs the caller's privilege level
    /// configured before it is read.
    pub fn needs_privilege_level(&self) -> (r: bool)
        ensures
            r == self.needs_privilege_level_spec(),
    {
        match self {
            TeeKind::AmdSevSnp => true,
            TeeKind::IntelTdx => false,
        }
    }
}

/// The technology that a provider identifier stands for, white space at its
/// ends aside; any identifier but the two known ones is an unsupported
/// platform.
pub open spec fn tee_kind_of(provider: Seq<char>) -> Result<TeeKind, AgentError> {
    if trimmed(provider) == "sev_guest"@ {
        Ok(TeeKind::AmdSevSnp)
    } else if trimmed(provider) == "tdx_guest"@ {
        Ok(TeeKind::IntelTdx)
    } else {
        Err(AgentError::UnsupportedPlatform)
    }
}

fn char_is_space(c: char) -> (r: bool)
    ensures
        r == is_space(c),
{
    let n: u32 = c as u32;
    (0x09 <= n && n <= 0x0D) || n == 0x20 || n == 0x85 || n == 0xA0 || n == 0x1680 || (0x2000 <= n
        && n <= 0x200A) || n == 0x2028 || n == 0x2029 || n == 0x202F || n == 0x205F || n == 0x3000
}

/// Dropping one more leading item changes nothing where that item is dropped
/// anyway.
proof fn lemma_strip_front_step<A>(s: Seq<A>, drop: spec_fn(A) -> bool, i: int)
    requires
        0 <= i < s.len(),
        drop(s[i]),
    ensures
        strip_front(s.subrange(i, s.len() as int), drop) == strip_front(
            s.subrange(i + 1, s.len() as int),
            drop,
        ),
{
    let t = s.subrange(i, s.len() as int);
    assert(t.subrange(1, t.len() as int) =~= s.subrange(i + 1, s.len() as int));
}

/// Dropping one more trailing item changes nothing where that item is dropped
/// anyway.
proof fn lemma_strip_back_step<A>(s: Seq<A>, drop: spec_fn(A) -> bool, i: int, j: int)
    requires
        0 <= i < j <= s.len(),
        drop(s[j - 1]),
    ensures
        strip_back(s.subrange(i, j), drop) == strip_back(s.subrange(i, j - 1), drop),
{
    let t = s.subrange(i, j);
    assert(t.subrange(0, t.len() - 1) =~= s.subrange(i, j - 1));
}

/// Where stripping the front stops: everything before that place is
/// dropped, and the item at that place, if there is one, is kept.
proof fn lemma_strip_front_bounds<A>(s: Seq<A>, drop: spec_fn(A) -> bool) -> (i: int)
    ensures
        0 <= i <= s.len(),
        strip_front(s, drop) == s.subrange(i, s.len() as int),
        forall|k: int| 0 <= k < i ==> drop(#[trigger] s[k]),
        i < s.len() ==> !drop(s[i]),
    decreases s.len(),
{
    if s.len() > 0 && drop(s[0]) {
        let rest = s.subrange(1, s.len() as int);
        let inner = lemma_strip_front_bounds(rest, drop);
        assert(rest.subrange(inner, rest.len() as int) =~= s.subrange(inner + 1, s.len() as int));
        assert forall|k: int| 0 <= k < inner + 1 implies drop(#[trigger] s[k]) by {
            if k > 0 {
                assert(s[k] == rest[k - 1]);
            }
        }
        if inner + 1 < s.len() {
            assert(s[inner + 1] == rest[inner]);
        }
        inner + 1
    } else {
        assert(s.subrange(0, s.len() as int) =~= s);
        0
    }
}

/// Where stripping the back stops: everything from that place on is dropped,
/// and the item before that place, if there is one, is kept.
proof fn lemma_strip_back_bounds<A>(s: Seq<A>, drop: spec_fn(A) -> bool) -> (j: int)
    ensures
        0 <= j <= s.len(),
        strip_back(s, drop) == s.subrange(0, j),
        forall|k: int| j <= k < s.len() ==> drop(#[trigger] s[k]),
        0 < j ==> !drop(s[j - 1]),
    decreases s.len(),
{
    if s.len() > 0 && drop(s[s.len() - 1]) {
        let rest = s.subrange(0, s.len() - 1);
        let inner = lemma_strip_back_bounds(rest, drop);
        assert(rest.subrange(0, inner) =~= s.subrange(0, inner));
        assert forall|k: int| inner <= k < s.len() implies drop(#[trigger] s[k]) by {
            if k < s.len() - 1 {
                assert(s[k] == rest[k]);
            }
        }
        if 0 < inner {
            assert(s[inner - 1] == rest[inner - 1]);
        }
        inner
    } else {
        assert(s.subrange(0, s.len() as int) =~= s);
        s.len() as int
    }
}

/// What stripping leaves is one piece of the sequence: everything before it
/// and everything after it is dropped, and where anything is left, its first
/// and its last item are kept. The result gives the piece's bounds.
pub proof fn lemma_stripped_is_the_middle<A>(s: Seq<A>, drop: spec_fn(A) -> bool) -> (r: (int, int))
    ensures
        0 <= r.0 <= r.1 <= s.len(),
        stripped(s, drop) == s.subrange(r.0, r.1),
        forall|k: int| 0 <= k < r.0 ==> drop(#[trigger] s[k]),
        forall|k: int| r.1 <= k < s.len() ==> drop(#[trigger] s[k]),
        r.0 < r.1 ==> !drop(s[r.0]) && !drop(s[r.1 - 1]),
{
    let i = lemma_strip_front_bounds(s, drop);
    let front = s.subrange(i, s.len() as int);
    let j = lemma_strip_back_bounds(front, drop);
    assert(front.subrange(0, j) =~= s.subrange(i, i + j));
    assert forall|k: int| i + j <= k < s.len() implies drop(#[trigger] s[k]) by {
        assert(s[k] == front[k - i]);
    }
    if 0 < j {
        assert(front[j - 1] == s[i + j - 1]);
    }
    (i, i + j)
}

/// The bounds of a text without the white space at its ends, in characters.
fn trimmed_bounds(s: &str) -> (r: (usize, usize))
    ensures
        r.0 <= r.1 <= s@.len(),
        s@.subrange(r.0 as int, r.1 as int) == trimmed(s@),
{
    let n = s.unicode_len();
    let ghost drop = |c: char| is_space(c);
    let mut i: usize = 0;
    proof {
        assert(s@.subrange(0, n as int) =~= s@);
    }
    while i < n && char_is_space(s.get_char(i))
        invariant
            i <= n,
            n == s@.len(),
            drop == (|c: char| is_space(c)),
            strip_front(s@, drop) == strip_front(s@.subrange(i as int, n as int), drop),
        decreases n - i,
    {
        proof {
            lemma_strip_front_step(s@, drop, i as int);
        }
        i += 1;
    }
    let mut j: usize = n;
    while j > i && char_is_space(s.get_char(j - 1))
        invariant
            i <= j <= n,
            n == s@.len(),
            drop == (|c: char| is_space(c)),
            strip_front(s@, drop) == s@.subrange(i as int, n as int),
            stripped(s@, drop) == strip_back(s@.subrange(i as int, j as int), drop),
        decreases j,
    {
        proof {
            lemma_strip_back_step(s@, drop, i as int, j as int);
        }
        j -= 1;
    }
    (i, j)
}

/// Whether the characters of `s` from `from` up to `to` spell `word`.
fn range_spells(s: &str, from: usize, to: usize, word: &str) -> (r: bool)
    requires
        from <= to <= s@.len(),
    ensures
        r == (s@.subrange(from as int, to as int) == word@),
{
    let m = word.unicode_len();
    if to - from != m {
        return false;
    }
    let mut k: usize = 0;
    while k < m
        invariant
            k <= m,
            m == word@.len(),
            to - from == m,
            from <= to <= s@.len(),
            forall|x: int| 0 <= x < k ==> s@[from + x] == word@[x],
        decreases m - k,
    {
        if s.get_char(from + k) != word.get_char(k) {
            proof {
                assert(s@.subrange(from as int, to as int)[k as int] != word@[k as int]);
            }
            return false;
        }
        k += 1;
    }
    proof {
        assert(s@.subrange(from as int, to as int) =~= word@);
    }
    true
}

/// Determines the technology from the provider identifier that the report
/// interface shows: `sev_guest` is AMD SEV-SNP and `tdx_guest` is Intel TDX,
/// white space at the ends aside. Anything else is `UnsupportedPlatform`.
pub fn get_tee_type(provider: &str) -> (r: Result<TeeKind, AgentError>)
    ensures
        r == tee_kind_of(provider@),
{
    let (from, to) = trimmed_bounds(provider);
    if range_spells(provider, from, to, "sev_guest") {
        Ok(TeeKind::AmdSevSnp)
    } else if range_spells(provider, from, to, "tdx_guest") {
        Ok(TeeKind::IntelTdx)
    } else {
        Err(AgentError::UnsupportedPlatform)
    }
}

/// Whether a nonce, as the broker sent it, is usable: exactly 64 bytes once
/// the quotes around it are gone.
pub open spec fn nonce_accepted(nonce: Seq<u8>) -> bool {
    unquoted(nonce).len() == NONCE_LEN
}

/// The bytes of a nonce without the quotes around it, where they are exactly
/// 64; otherwise `InvalidNonce`. A nonce is never cut or padded to fit.
pub fn nonce_bytes(nonce: &str) -> (r: Result<Vec<u8>, AgentError>)
    ensures
        nonce_accepted(nonce.spec_bytes()) ==> (r matches Ok(v) && v@ == unquoted(
            nonce.spec_bytes(),
        )),
        !nonce_accepted(nonce.spec_bytes()) ==> (r matches Err(e) && e == AgentError::InvalidNonce),
{
    let bytes = nonce.as_bytes();
    let n = bytes.len();
    let ghost drop = |b: u8| b == QUOTE;
    let mut i: usize = 0;
    proof {
        assert(bytes@.subrange(0, n as int) =~= bytes@);
    }
    while i < n && bytes[i] == QUOTE
        invariant
            i <= n,
            n == bytes@.len(),
            drop == (|b: u8| b == QUOTE),
            strip_front(bytes@, drop) == strip_front(bytes@.subrange(i as int, n as int), drop),
        decreases n - i,
    {
        proof {
            lemma_strip_front_step(bytes@, drop, i as int);
        }
        i += 1;
    }
    let mut j: usize = n;
    while j > i && bytes[j - 1] == QUOTE
        invariant
            i <= j <= n,
            n == bytes@.len(),
            drop == (|b: u8| b == QUOTE),
            strip_front(bytes@, drop) == bytes@.subrange(i as int, n as int),
            stripped(bytes@, drop) == strip_back(bytes@.subrange(i as int, j as int), drop),
        decreases j,
    {
        proof {
            lemma_strip_back_step(bytes@, drop, i as int, j as int);
        }
        j -= 1;
    }
    if j - i != NONCE_LEN {
        return Err(AgentError::InvalidNonce);
    }
    Ok(slice_to_vec(slice_subrange(bytes, i, j)))
}

/// What the platform answered to the action that was pending.
pub enum InterfaceEvent {
    /// The scope was opened or closed, or the slot was written.
    Done,
    /// A slot was read as text.
    Text(String),
    /// A slot was read as bytes.
    Bytes(Vec<u8>),
    /// The action failed.
    Failed,
}

/// What the caller is to do next on the platform.
pub enum EvidenceAction {
    /// Create a working scope of its own under the report interface's root.
    OpenScope,
    /// Read the provider identifier inside the scope, as text.
    ReadProvider,
    /// Write these bytes into the scope's nonce slot.
    WriteNonce(Vec<u8>),
    /// Read the caller's privilege level from the platform, as text.
    ReadPrivilegeLevel,
    /// Write this text into the scope's privilege-level slot.
    WritePrivilegeLevel(String),
    /// Read the signed report from the scope's output slot, as bytes.
    ReadReport,
    /// Release the working scope.
    CloseScope,
    /// Nothing more: the request ends with the encoded report and the
    /// technology's identifier, or with the reason why there is none.
    Finish(Result<(String, String), AgentError>),
}

/// Where an evidence request stands. Each state but the last waits for the
/// answer to one pending action.
pub enum EvidenceState {
    /// Waiting for the working scope to be opened.
    Opening { nonce: Vec<u8> },
    /// Waiting for the provider identifier.
    ReadingProvider { nonce: Vec<u8> },
    /// Waiting for the nonce to be written.
    WritingNonce { kind: TeeKind },
    /// Waiting for the caller's privilege level.
    ReadingPrivilegeLevel,
    /// Waiting for the privilege level to be written.
    WritingPrivilegeLevel,
    /// Waiting for the signed report.
    ReadingReport { kind: TeeKind },
    /// Waiting for the working scope to be released.
    Closing { outcome: Result<(Vec<u8>, TeeKind), AgentError> },
    /// The request has ended.
    Finished,
}

/// The actions, without what they carry.
#[derive(Debug, Clone, Copy, PartialEq, Eq, Structural)]
pub enum ActionKind {
    OpenScope,
    ReadProvider,
    WriteNonce,
    ReadPrivilegeLevel,
    WritePrivilegeLevel,
    ReadReport,
    CloseScope,
    Finish,
}

impl EvidenceAction {
    /// Which action this is.
    pub open spec fn kind_spec(self) -> ActionKind {
        match self {
            EvidenceAction::OpenScope => ActionKind::OpenScope,
            EvidenceAction::ReadProvider => ActionKind::ReadProvider,
            EvidenceAction::WriteNonce(_) => ActionKind::WriteNonce,
            EvidenceAction::ReadPrivilegeLevel => ActionKind::ReadPrivilegeLevel,
            EvidenceAction::WritePrivilegeLevel(_) => ActionKind::WritePrivilegeLevel,
            EvidenceAction::ReadReport => ActionKind::ReadReport,
            EvidenceAction::CloseScope => ActionKind::CloseScope,
            EvidenceAction::Finish(_) => ActionKind::Finish,
        }
    }

    /// Which action this is.
    pub fn kind(&self) -> (r: ActionKind)
        ensures
            r == self.kind_spec(),
    {
        match self {
            EvidenceAction::OpenScope => ActionKind::OpenScope,
            EvidenceAction::ReadProvider => ActionKind::ReadProvider,
            EvidenceAction::WriteNonce(_) => ActionKind::WriteNonce,
            EvidenceAction::ReadPrivilegeLevel => ActionKind::ReadPrivilegeLevel,
            EvidenceAction::WritePrivilegeLevel(_) => ActionKind::WritePrivilegeLevel,
            EvidenceAction::ReadReport => ActionKind::ReadReport,
            EvidenceAction::CloseScope => ActionKind::CloseScope,
            EvidenceAction::Finish(_) => ActionKind::Finish,
        }
    }
}

/// The state in which a failed step leaves a request whose scope is open:
/// the scope is released, and the request then ends with this reason.
pub open spec fn closing_with(reason: AgentError) -> EvidenceState {
    EvidenceState::Closing { outcome: Err(reason) }
}

impl EvidenceState {
    /// Whether the request owns a working scope in this state.
    pub open spec fn holds_scope(self) -> bool {
        !(self is Opening || self is Finished)
    }

    /// The action whose answer the state waits for; for the last state, the
    /// end of the request.
    pub open spec fn pending(self) -> ActionKind {
        match self {
            EvidenceState::Opening { .. } => ActionKind::OpenScope,
            EvidenceState::ReadingProvider { .. } => ActionKind::ReadProvider,
            EvidenceState::WritingNonce { .. } => ActionKind::WriteNonce,
            EvidenceState::ReadingPrivilegeLevel => ActionKind::ReadPrivilegeLevel,
            EvidenceState::WritingPrivilegeLevel => ActionKind::WritePrivilegeLevel,
            EvidenceState::ReadingReport { .. } => ActionKind::ReadReport,
            EvidenceState::Closing { .. } => ActionKind::CloseScope,
            EvidenceState::Finished => ActionKind::Finish,
        }
    }

    /// The number of steps after which the request has ended at the latest.
    pub open spec fn steps_left(self) -> nat {
        match self {
            EvidenceState::Opening { .. } => 7,
            EvidenceState::ReadingProvider { .. } => 6,
            EvidenceState::WritingNonce { .. } => 5,
            EvidenceState::ReadingPrivilegeLevel => 4,
            EvidenceState::WritingPrivilegeLevel => 3,
            EvidenceState::ReadingReport { .. } => 2,
            EvidenceState::Closing { .. } => 1,
            EvidenceState::Finished => 0,
        }
    }

    /// The state that follows on an answer of the platform. An answer that
    /// does not fit the pending action counts as a failure of it; a failure
    /// while the scope is open leads to its release.
    pub open spec fn next(self, event: InterfaceEvent) -> EvidenceState {
        match self {
            EvidenceState::Opening { nonce } => match event {
                InterfaceEvent::Done => EvidenceState::ReadingProvider { nonce },
                _ => EvidenceState::Finished,
            },
            EvidenceState::ReadingProvider { nonce } => match event {
                InterfaceEvent::Text(provider) => match tee_kind_of(provider@) {
                    Ok(kind) => EvidenceState::WritingNonce { kind },
                    Err(e) => closing_with(e),
                },
                _ => closing_with(AgentError::EvidenceUnavailable),
            },
            EvidenceState::WritingNonce { kind } => match event {
                InterfaceEvent::Done => if kind.needs_privilege_level_spec() {
                    EvidenceState::ReadingPrivilegeLevel
                } else {
                    EvidenceState::ReadingReport { kind }
                },
                _ => closing_with(AgentError::EvidenceUnavailable),
            },
            EvidenceState::ReadingPrivilegeLevel => match event {
                InterfaceEvent::Text(_) => EvidenceState::WritingPrivilegeLevel,
                _ => closing_with(AgentError::EvidenceUnavailable),
            },
            EvidenceState::WritingPrivilegeLevel => match event {
                InterfaceEvent::Done => EvidenceState::ReadingReport { kind: TeeKind::AmdSevSnp },
                _ => closing_with(AgentError::EvidenceUnavailable),
            },
            EvidenceState::ReadingReport { kind } => match event {
                InterfaceEvent::Bytes(report) => if report@.len() > 0 {
                    EvidenceState::Closing { outcome: Ok((report, kind)) }
                } else {
                    closing_with(AgentError::EvidenceUnavailable)
                },
                _ => closing_with(AgentError::EvidenceUnavailable),
            },
            EvidenceState::Closing { .. } => EvidenceState::Finished,
            EvidenceState::Finished => EvidenceState::Finished,
        }
    }

    /// Whether `action` is what the caller is told on an answer of the
    /// platform: the pending action of the state that follows, with what it
    /// carries. The nonce that is written is the one the request began with,
    /// the privilege level that is written is the one that was read, and the
    /// request ends with the report in standard base64 and the technology's
    /// identifier, or with the reason that the release waited with. A report
    /// too long for its base64 text to be counted is no evidence.
    pub open spec fn tells(self, event: InterfaceEvent, action: EvidenceAction) -> bool {
        &&& action.kind_spec() == self.next(event).pending()
        &&& action matches EvidenceAction::WriteNonce(bytes) ==> {
            &&& self matches EvidenceState::ReadingProvider { nonce }
            &&& bytes == nonce
        }
        &&& action matches EvidenceAction::WritePrivilegeLevel(level) ==> {
            &&& event matches InterfaceEvent::Text(read)
            &&& level == read
        }
        &&& action matches EvidenceAction::Finish(result) ==> match self {
            EvidenceState::Closing { outcome: Ok((report, kind)) } => if base64_fits(
                report@.len(),
            ) {
                &&& result matches Ok(pair)
                &&& pair.0@ == base64_text(report@)
                &&& pair.1@ == kind.name_spec()
            } else {
                result == Err::<(String, String), AgentError>(AgentError::EvidenceUnavailable)
            },
            EvidenceState::Closing { outcome: Err(e) } => result == Err::<
                (String, String),
                AgentError,
            >(e),
            _ => result == Err::<(String, String), AgentError>(AgentError::EvidenceUnavailable),
        }
    }

    /// The state after a run of answers.
    pub open spec fn after(self, events: Seq<InterfaceEvent>) -> EvidenceState
        decreases events.len(),
    {
        if events.len() == 0 {
            self
        } else {
            self.next(events[0]).after(events.subrange(1, events.len() as int))
        }
    }

    /// Whether the request can still come to configure a privilege level.
    pub open spec fn may_configure_privilege_level(self) -> bool {
        match self {
            EvidenceState::Opening { .. } => true,
            EvidenceState::ReadingProvider { .. } => true,
            EvidenceState::WritingNonce { kind } => kind.needs_privilege_level_spec(),
            EvidenceState::ReadingPrivilegeLevel => true,
            EvidenceState::WritingPrivilegeLevel => true,
            _ => false,
        }
    }
}

/// Begins an evidence request. A nonce that is not exactly 64 bytes long,
/// the quotes around it aside, ends the request at once with `InvalidNonce`:
/// no working scope is asked for. Otherwise the first action is to open one.
pub fn start(nonce: &str) -> (r: (EvidenceState, EvidenceAction))
    ensures
        nonce_accepted(nonce.spec_bytes()) ==> {
            &&& r.0 matches EvidenceState::Opening { nonce: held }
            &&& held@ == unquoted(nonce.spec_bytes())
            &&& r.1 is OpenScope
        },
        !nonce_accepted(nonce.spec_bytes()) ==> {
            &&& r.0 is Finished
            &&& r.1 matches EvidenceAction::Finish(Err(e))
            &&& e == AgentError::InvalidNonce
        },
{
    match nonce_bytes(nonce) {
        Ok(held) => (EvidenceState::Opening { nonce: held }, EvidenceAction::OpenScope),
        Err(e) => (EvidenceState::Finished, EvidenceAction::Finish(Err(e))),
    }
}

/// The action that releases the scope after a failure, and the state that
/// waits for it.
fn close_with(reason: AgentError) -> (r: (EvidenceState, EvidenceAction))
    ensures
        r.0 == closing_with(reason),
        r.1 is CloseScope,
{
    (EvidenceState::Closing { outcome: Err(reason) }, EvidenceAction::CloseScope)
}

/// Takes a request one step further: from the state and the platform's
/// answer to the pending action, to the next state and the next action.
pub fn step(state: EvidenceState, event: InterfaceEvent) -> (r: (EvidenceState, EvidenceAction))
    ensures
        r.0 == state.next(event),
        state.tells(event, r.1),
{
    match state {
        EvidenceState::Opening { nonce } => match event {
            InterfaceEvent::Done => (
                EvidenceState::ReadingProvider { nonce },
                EvidenceAction::ReadProvider,
            ),
            _ => (
                EvidenceState::Finished,
                EvidenceAction::Finish(Err(AgentError::EvidenceUnavailable)),
            ),
        },
        EvidenceState::ReadingProvider { nonce } => match event {
            InterfaceEvent::Text(provider) => match get_tee_type(provider.as_str()) {
                Ok(kind) => (EvidenceState::WritingNonce { kind }, EvidenceAction::WriteNonce(nonce)),
                Err(e) => close_with(e),
            },
            _ => close_with(AgentError::EvidenceUnavailable),
        },
        EvidenceState::WritingNonce { kind } => match event {
            InterfaceEvent::Done => if kind.needs_privilege_level() {
                (EvidenceState::ReadingPrivilegeLevel, EvidenceAction::ReadPrivilegeLevel)
            } else {
                (EvidenceState::ReadingReport { kind }, EvidenceAction::ReadReport)
            },
            _ => close_with(AgentError::EvidenceUnavailable),
        },
        EvidenceState::ReadingPrivilegeLevel => match event {
            InterfaceEvent::Text(level) => (
                EvidenceState::WritingPrivilegeLevel,
                EvidenceAction::WritePrivilegeLevel(level),
            ),
            _ => close_with(AgentError::EvidenceUnavailable),
        },
        EvidenceState::WritingPrivilegeLevel => match event {
            InterfaceEvent::Done => (
                EvidenceState::ReadingReport { kind: TeeKind::AmdSevSnp },
                EvidenceAction::ReadReport,
            ),
            _ => close_with(AgentError::EvidenceUnavailable),
        },
        EvidenceState::ReadingReport { kind } => match event {
            InterfaceEvent::Bytes(report) => if report.len() > 0 {
                (EvidenceState::Closing { outcome: Ok((report, kind)) }, EvidenceAction::CloseScope)
            } else {
                close_with(AgentError::EvidenceUnavailable)
            },
            _ => close_with(AgentError::EvidenceUnavailable),
        },
        EvidenceState::Closing { outcome } => match outcome {
            Ok((report, kind)) => if fits_base64(report.len()) {
                let encoded = base64_encode(report.as_slice());
                let name = kind.name().to_string();
                (EvidenceState::Finished, EvidenceAction::Finish(Ok((encoded, name))))
            } else {
                (
                    EvidenceState::Finished,
                    EvidenceAction::Finish(Err(AgentError::EvidenceUnavailable)),
                )
            },
            Err(e) => (EvidenceState::Finished, EvidenceAction::Finish(Err(e))),
        },
        EvidenceState::Finished => (
            EvidenceState::Finished,
            EvidenceAction::Finish(Err(AgentError::EvidenceUnavailable)),
        ),
    }
}

/// Every step brings the request nearer to its end.
pub proof fn lemma_step_progress(state: EvidenceState, event: InterfaceEvent)
    requires
        !(state is Finished),
    ensures
        state.next(event).steps_left() < state.steps_left(),
{
}

/// The working scope never outlives the request. A request ends only from
/// a state without a scope: where the scope could not be opened, or after
/// the step that released it. Whatever goes wrong while the scope is open,
/// an answer that does not fit included, leads to the release, as does
/// success; and until the release is answered the scope stays the request's.
pub proof fn lemma_scope_released(state: EvidenceState, event: InterfaceEvent)
    ensures
        state.next(event) is Finished ==> (state is Opening || state is Closing
            || state is Finished),
        state.holds_scope() && !(state is Closing) ==> state.next(event).holds_scope(),
        state.holds_scope() && !(state is Closing) && (event is Failed || state.next(event).pending()
            == ActionKind::Finish) ==> state.next(event).pending() == ActionKind::CloseScope,
        state.next(event).pending() == ActionKind::OpenScope ==> false,
        state.next(event).holds_scope() && !state.holds_scope() ==> (state is Opening
            && event is Done),
{
}

/// A request that holds a working scope does not end without releasing it:
/// whatever run of answers brings it to its end, at some point before the
/// end it waited for the release of the scope.
pub proof fn lemma_scope_released_before_end(state: EvidenceState, events: Seq<InterfaceEvent>)
    requires
        state.holds_scope(),
        state.after(events) is Finished,
    ensures
        exists|k: int|
            0 <= k < events.len() && (#[trigger] state.after(events.subrange(0, k))) is Closing,
    decreases events.len(),
{
    if state is Closing {
        assert(state.after(events.subrange(0, 0)) == state);
    } else {
        let rest = events.subrange(1, events.len() as int);
        lemma_scope_released(state, events[0]);
        lemma_scope_released_before_end(state.next(events[0]), rest);
        let k = choose|k: int|
            0 <= k < rest.len() && (#[trigger] state.next(events[0]).after(rest.subrange(0, k)))
                is Closing;
        let head = events.subrange(0, k + 1);
        assert(head.subrange(1, head.len() as int) =~= rest.subrange(0, k));
        assert(state.after(head) is Closing);
    }
}

/// After seven answers at the latest, whatever they are, the request has
/// ended, and then holds no scope.
pub proof fn lemma_request_ends(state: EvidenceState, events: Seq<InterfaceEvent>)
    requires
        events.len() >= state.steps_left(),
    ensures
        state.after(events) is Finished,
        !state.after(events).holds_scope(),
    decreases events.len(),
{
    if events.len() > 0 {
        if !(state is Finished) {
            lemma_step_progress(state, events[0]);
        }
        lemma_request_ends(state.next(events[0]), events.subrange(1, events.len() as int));
    }
}

/// Once the technology is known not to need a privilege level, as Intel TDX
/// does not, no run of answers brings the request to read or to write one.
pub proof fn lemma_privilege_level_only_where_needed(
    state: EvidenceState,
    events: Seq<InterfaceEvent>,
)
    requires
        !state.may_configure_privilege_level(),
    ensures
        !state.after(events).may_configure_privilege_level(),
        state.after(events).pending() != ActionKind::ReadPrivilegeLevel,
        state.after(events).pending() != ActionKind::WritePrivilegeLevel,
    decreases events.len(),
{
    if events.len() > 0 {
        lemma_privilege_level_only_where_needed(
            state.next(events[0]),
            events.subrange(1, events.len() as int),
        );
    }
}

/// A provider identifier of `tdx_guest` leads past the privilege level: the
/// nonce is written, and nothing that follows configures a privilege level.
pub proof fn lemma_tdx_skips_privilege_level(
    nonce: Vec<u8>,
    provider: String,
    events: Seq<InterfaceEvent>,
)
    requires
        trimmed(provider@) == "tdx_guest"@,
    ensures
        ({
            let begun = EvidenceState::ReadingProvider { nonce }.next(InterfaceEvent::Text(provider));
            &&& begun == (EvidenceState::WritingNonce { kind: TeeKind::IntelTdx })
            &&& begun.after(events).pending() != ActionKind::ReadPrivilegeLevel
            &&& begun.after(events).pending() != ActionKind::WritePrivilegeLevel
        }),
{
    reveal_strlit("tdx_guest");
    reveal_strlit("sev_guest");
    assert("tdx_guest"@ != "sev_guest"@) by {
        assert("tdx_guest"@[0] != "sev_guest"@[0]);
    }
    let begun = EvidenceState::ReadingProvider { nonce }.next(InterfaceEvent::Text(provider));
    lemma_privilege_level_only_where_needed(begun, events);
}

} // verus!
