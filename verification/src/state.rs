//! Persisted records and their fixed binary layout.
//!
//! Each record lives in a fixed-size storage slot. Numeric fields are
//! little-endian fixed-width integers, booleans occupy one byte, and
//! identifiers are fixed 32-byte opaque values. Decoding tolerates an
//! all-zero (freshly allocated) buffer by yielding a record whose sentinel
//! fields are null rather than erroring; trailing bytes beyond a record's
//! declared length are ignored, and a buffer that is too short, or whose
//! boolean byte is neither 0 nor 1, does not decode.

use vstd::prelude::*;

use crate::error::StepError;
use crate::keys::{is_key, is_null_key, null_key, null_key_seq, read_key, PubkeyData, KEY_LEN};
use vstd::bytes::{spec_u64_from_le_bytes, spec_u64_to_le_bytes, u64_from_le_bytes, u64_to_le_bytes};

verus! {

/// Seconds since the epoch, or a duration in seconds.
pub type UnixTimestamp = i64;

/// Encoded length of the program-state record.
pub const PROGRAM_STATE_LEN: usize = 33;

/// Encoded length of a pool record.
pub const POOL_LEN: usize = 97;

/// Encoded length of a per-user account record.
pub const USER_ACCOUNT_LEN: usize = 72;

/// Encoded length of a stream record.
pub const STREAM_LEN: usize = 112;

/// Byte that encodes a boolean field.
pub open spec fn spec_bool_byte(b: bool) -> u8 {
    if b {
        1u8
    } else {
        0u8
    }
}

/// Reads the little-endian u64 stored at `start` in a record buffer.
pub fn read_u64_le(src: &[u8], start: usize) -> (r: u64)
    requires
        start + 8 <= src@.len(),
    ensures
        r == spec_u64_from_le_bytes(src@.subrange(start as int, start as int + 8)),
{
    let n = src.len();
    assert(start + 8 <= n);
    u64_from_le_bytes(vstd::slice::slice_subrange(src, start, start + 8))
}

// ---------------------------------------------------------------------------
// Program state: the singleton record, created once at program boot.
// ---------------------------------------------------------------------------

/// Singleton record holding the deployer's identity.
#[derive(Clone, Debug, PartialEq, Eq)]
pub struct StepProgramState {
    pub is_initialized: bool,
    pub deployer_pubkey: PubkeyData,
}

/// Mathematical value of a [`StepProgramState`].
#[verifier::ext_equal]
pub struct StepProgramStateV {
    pub is_initialized: bool,
    pub deployer_pubkey: Seq<u8>,
}

impl StepProgramStateV {
    /// Identifier fields hold exactly 32 bytes.
    pub open spec fn wf(&self) -> bool {
        is_key(self.deployer_pubkey)
    }
}

impl View for StepProgramState {
    type V = StepProgramStateV;

    open spec fn view(&self) -> StepProgramStateV {
        StepProgramStateV { is_initialized: self.is_initialized, deployer_pubkey: self.deployer_pubkey@ }
    }
}

impl StepProgramState {
    /// Identifier fields hold exactly 32 bytes.
    pub open spec fn wf(&self) -> bool {
        self@.wf()
    }
}

/// Byte layout of a program-state record: one boolean byte, then the
/// deployer's 32-byte identifier.
pub open spec fn spec_encode_program_state(m: StepProgramStateV) -> Seq<u8> {
    seq![spec_bool_byte(m.is_initialized)] + m.deployer_pubkey
}

/// Parses a program-state record; `None` when the buffer is too short or the
/// boolean byte is out of range.
pub open spec fn spec_decode_program_state(s: Seq<u8>) -> Option<StepProgramStateV> {
    if s.len() >= PROGRAM_STATE_LEN && s[0] <= 1 {
        Some(
            StepProgramStateV {
                is_initialized: s[0] == 1u8,
                deployer_pubkey: s.subrange(1, 1 + KEY_LEN as int),
            },
        )
    } else {
        None
    }
}

impl StepProgramState {
    /// Encodes the record into its fixed-width buffer.
    pub fn encode(&self) -> (r: Vec<u8>)
        requires
            self.wf(),
        ensures
            r@ == spec_encode_program_state(self@),
            r@.len() == PROGRAM_STATE_LEN,
    {
        let mut out: Vec<u8> = Vec::new();
        out.push(if self.is_initialized { 1 } else { 0 });
        out.extend_from_slice(self.deployer_pubkey.as_slice());
        proof {
            assert(out@ =~= spec_encode_program_state(self@));
        }
        out
    }

    /// Decodes a record from a storage buffer; fails with `CorruptRecord`
    /// exactly when the bytes do not parse.
    pub fn unpack_from_slice(src: &[u8]) -> (r: Result<StepProgramState, StepError>)
        ensures
            match r {
                Ok(v) => spec_decode_program_state(src@) == Some(v@) && v.wf(),
                Err(e) => spec_decode_program_state(src@) is None && e == StepError::CorruptRecord,
            },
    {
        let n = src.len();
        if n < PROGRAM_STATE_LEN {
            return Err(StepError::CorruptRecord);
        }
        let b = *vstd::slice::slice_index_get(src, 0);
        if b > 1 {
            return Err(StepError::CorruptRecord);
        }
        let v = StepProgramState { is_initialized: b == 1, deployer_pubkey: read_key(src, 1) };
        proof {
            assert(Some(v@) =~= spec_decode_program_state(src@));
        }
        Ok(v)
    }
}

// ---------------------------------------------------------------------------
// Pool: one record per trading pool.
// ---------------------------------------------------------------------------

/// Per-pool record: the custodied asset, the seed that re-derives the pool's
/// own address, and the head of the pool's user list.
#[derive(Clone, Debug, PartialEq, Eq)]
pub struct Pool {
    pub is_initialized: bool,
    pub mint_pubkey: PubkeyData,
    pub pda_seed: PubkeyData,
    pub head_user: PubkeyData,
}

/// Mathematical value of a [`Pool`].
#[verifier::ext_equal]
pub struct PoolV {
    pub is_initialized: bool,
    pub mint_pubkey: Seq<u8>,
    pub pda_seed: Seq<u8>,
    pub head_user: Seq<u8>,
}

impl PoolV {
    /// Identifier fields hold exactly 32 bytes.
    pub open spec fn wf(&self) -> bool {
        is_key(self.mint_pubkey) && is_key(self.pda_seed) && is_key(self.head_user)
    }
}

impl View for Pool {
    type V = PoolV;

    open spec fn view(&self) -> PoolV {
        PoolV {
            is_initialized: self.is_initialized,
            mint_pubkey: self.mint_pubkey@,
            pda_seed: self.pda_seed@,
            head_user: self.head_user@,
        }
    }
}

impl Pool {
    /// Identifier fields hold exactly 32 bytes.
    pub open spec fn wf(&self) -> bool {
        self@.wf()
    }
}

/// Byte layout of a pool record: one boolean byte, then the asset identifier,
/// the pool's own seed, and the head of the user list.
pub open spec fn spec_encode_pool(m: PoolV) -> Seq<u8> {
    seq![spec_bool_byte(m.is_initialized)] + m.mint_pubkey + m.pda_seed + m.head_user
}

/// Parses a pool record; `None` when the buffer is too short or the boolean
/// byte is out of range.
pub open spec fn spec_decode_pool(s: Seq<u8>) -> Option<PoolV> {
    if s.len() >= POOL_LEN && s[0] <= 1 {
        Some(
            PoolV {
                is_initialized: s[0] == 1u8,
                mint_pubkey: s.subrange(1, 33),
                pda_seed: s.subrange(33, 65),
                head_user: s.subrange(65, 97),
            },
        )
    } else {
        None
    }
}

impl Pool {
    /// Encodes the record into its fixed-width buffer.
    pub fn encode(&self) -> (r: Vec<u8>)
        requires
            self.wf(),
        ensures
            r@ == spec_encode_pool(self@),
            r@.len() == POOL_LEN,
    {
        let mut out: Vec<u8> = Vec::new();
        out.push(if self.is_initialized { 1 } else { 0 });
        out.extend_from_slice(self.mint_pubkey.as_slice());
        out.extend_from_slice(self.pda_seed.as_slice());
        out.extend_from_slice(self.head_user.as_slice());
        proof {
            assert(out@ =~= spec_encode_pool(self@));
        }
        out
    }

    /// Decodes a record from a storage buffer; fails with `CorruptRecord`
    /// exactly when the bytes do not parse.
    pub fn unpack_from_slice(src: &[u8]) -> (r: Result<Pool, StepError>)
        ensures
            match r {
                Ok(v) => spec_decode_pool(src@) == Some(v@) && v.wf(),
                Err(e) => spec_decode_pool(src@) is None && e == StepError::CorruptRecord,
            },
    {
        let n = src.len();
        if n < POOL_LEN {
            return Err(StepError::CorruptRecord);
        }
        let b = *vstd::slice::slice_index_get(src, 0);
        if b > 1 {
            return Err(StepError::CorruptRecord);
        }
        let v = Pool {
            is_initialized: b == 1,
            mint_pubkey: read_key(src, 1),
            pda_seed: read_key(src, 33),
            head_user: read_key(src, 65),
        };
        proof {
            assert(Some(v@) =~= spec_decode_pool(src@));
        }
        Ok(v)
    }
}

// ---------------------------------------------------------------------------
// UserAccount: one record per (pool, user) pair.
// ---------------------------------------------------------------------------

/// Per-user ledger record: custodied balance, forward link in the pool's user
/// list, and the head of the user's stream list.
#[derive(Clone, Debug, PartialEq, Eq)]
pub struct UserAccount {
    pub balance: u64,
    pub next_user: PubkeyData,
    pub head_stream: PubkeyData,
}

/// Mathematical value of a [`UserAccount`].
#[verifier::ext_equal]
pub struct UserAccountV {
    pub balance: u64,
    pub next_user: Seq<u8>,
    pub head_stream: Seq<u8>,
}

impl UserAccountV {
    /// Identifier fields hold exactly 32 bytes.
    pub open spec fn wf(&self) -> bool {
        is_key(self.next_user) && is_key(self.head_stream)
    }

    /// A freshly allocated (all-zero) user record: no balance, no links.
    pub open spec fn is_fresh(&self) -> bool {
        self.balance == 0 && is_null_key(self.next_user) && is_null_key(self.head_stream)
    }
}

impl View for UserAccount {
    type V = UserAccountV;

    open spec fn view(&self) -> UserAccountV {
        UserAccountV { balance: self.balance, next_user: self.next_user@, head_stream: self.head_stream@ }
    }
}

impl UserAccount {
    /// Identifier fields hold exactly 32 bytes.
    pub open spec fn wf(&self) -> bool {
        self@.wf()
    }

    /// A user record with no balance and null links, the state of a freshly
    /// allocated slot.
    pub fn new() -> (r: UserAccount)
        ensures
            r@.balance == 0,
            is_null_key(r@.next_user),
            is_null_key(r@.head_stream),
            r@.is_fresh(),
            r.wf(),
    {
        UserAccount { balance: 0, next_user: null_key(), head_stream: null_key() }
    }
}

/// The tail record as re-persisted when a new user is appended behind it:
/// only the forward link changes.
pub open spec fn spec_relink_user(u: UserAccountV, next: Seq<u8>) -> UserAccountV {
    UserAccountV { balance: u.balance, next_user: next, head_stream: u.head_stream }
}

/// Byte layout of a user record: the balance, then the forward user link and
/// the head of the stream list.
pub open spec fn spec_encode_user_account(m: UserAccountV) -> Seq<u8> {
    spec_u64_to_le_bytes(m.balance) + m.next_user + m.head_stream
}

/// Parses a user record; `None` exactly when the buffer is too short.
pub open spec fn spec_decode_user_account(s: Seq<u8>) -> Option<UserAccountV> {
    if s.len() >= USER_ACCOUNT_LEN {
        Some(
            UserAccountV {
                balance: spec_u64_from_le_bytes(s.subrange(0, 8)),
                next_user: s.subrange(8, 40),
                head_stream: s.subrange(40, 72),
            },
        )
    } else {
        None
    }
}

impl UserAccount {
    /// Encodes the record into its fixed-width buffer.
    pub fn encode(&self) -> (r: Vec<u8>)
        requires
            self.wf(),
        ensures
            r@ == spec_encode_user_account(self@),
            r@.len() == USER_ACCOUNT_LEN,
    {
        let mut out: Vec<u8> = u64_to_le_bytes(self.balance);
        out.extend_from_slice(self.next_user.as_slice());
        out.extend_from_slice(self.head_stream.as_slice());
        proof {
            assert(out@ =~= spec_encode_user_account(self@));
        }
        out
    }

    /// Decodes a record from a storage buffer; fails with `CorruptRecord`
    /// exactly when the bytes do not parse.
    pub fn unpack_from_slice(src: &[u8]) -> (r: Result<UserAccount, StepError>)
        ensures
            match r {
                Ok(v) => spec_decode_user_account(src@) == Some(v@) && v.wf(),
                Err(e) => spec_decode_user_account(src@) is None && e == StepError::CorruptRecord,
            },
    {
        let n = src.len();
        if n < USER_ACCOUNT_LEN {
            return Err(StepError::CorruptRecord);
        }
        let v = UserAccount {
            balance: read_u64_le(src, 0),
            next_user: read_key(src, 8),
            head_stream: read_key(src, 40),
        };
        proof {
            assert(Some(v@) =~= spec_decode_user_account(src@));
        }
        Ok(v)
    }
}

// ---------------------------------------------------------------------------
// Stream: one record per recurring-order registration.
// ---------------------------------------------------------------------------

/// Recurring-order record: the asset pair to swap, the forward link in the
/// owning user's stream list, the execution interval, and the amount per
/// execution.
#[derive(Clone, Debug, PartialEq, Eq)]
pub struct Stream {
    pub input_token_pubkey: PubkeyData,
    pub output_token_pubkey: PubkeyData,
    pub next_stream: PubkeyData,
    pub interval_days: UnixTimestamp,
    pub amount: u64,
}

/// Mathematical value of a [`Stream`].
#[verifier::ext_equal]
pub struct StreamV {
    pub input_token_pubkey: Seq<u8>,
    pub output_token_pubkey: Seq<u8>,
    pub next_stream: Seq<u8>,
    pub interval_days: i64,
    pub amount: u64,
}

impl StreamV {
    /// Identifier fields hold exactly 32 bytes.
    pub open spec fn wf(&self) -> bool {
        is_key(self.input_token_pubkey) && is_key(self.output_token_pubkey) && is_key(self.next_stream)
    }

    /// The content of a freshly allocated (all-zero) stream slot. No stream
    /// ever persisted by the registry looks like this: registration rejects a
    /// non-positive interval.
    pub open spec fn is_blank(&self) -> bool {
        is_null_key(self.input_token_pubkey) && is_null_key(self.output_token_pubkey)
            && is_null_key(self.next_stream) && self.interval_days == 0 && self.amount == 0
    }
}

impl View for Stream {
    type V = StreamV;

    open spec fn view(&self) -> StreamV {
        StreamV {
            input_token_pubkey: self.input_token_pubkey@,
            output_token_pubkey: self.output_token_pubkey@,
            next_stream: self.next_stream@,
            interval_days: self.interval_days,
            amount: self.amount,
        }
    }
}

impl Stream {
    /// Identifier fields hold exactly 32 bytes.
    pub open spec fn wf(&self) -> bool {
        self@.wf()
    }

    /// Builds a stream record from its fields.
    pub fn new(
        input_token_pubkey: PubkeyData,
        output_token_pubkey: PubkeyData,
        next_stream: PubkeyData,
        interval_days: UnixTimestamp,
        amount: u64,
    ) -> (r: Stream)
        ensures
            r@.input_token_pubkey == input_token_pubkey@,
            r@.output_token_pubkey == output_token_pubkey@,
            r@.next_stream == next_stream@,
            r@.interval_days == interval_days,
            r@.amount == amount,
    {
        Stream { input_token_pubkey, output_token_pubkey, next_stream, interval_days, amount }
    }
}

/// The tail record as re-persisted when a new stream is appended behind it:
/// only the forward link changes.
pub open spec fn spec_relink_stream(ts: StreamV, next: Seq<u8>) -> StreamV {
    StreamV {
        input_token_pubkey: ts.input_token_pubkey,
        output_token_pubkey: ts.output_token_pubkey,
        next_stream: next,
        interval_days: ts.interval_days,
        amount: ts.amount,
    }
}

/// Byte layout of a stream record: the asset pair, the forward link, then the
/// interval (two's-complement little-endian) and the amount per execution.
pub open spec fn spec_encode_stream(m: StreamV) -> Seq<u8> {
    m.input_token_pubkey + m.output_token_pubkey + m.next_stream + spec_u64_to_le_bytes(
        m.interval_days as u64,
    ) + spec_u64_to_le_bytes(m.amount)
}

/// Parses a stream record; `None` exactly when the buffer is too short.
pub open spec fn spec_decode_stream(s: Seq<u8>) -> Option<StreamV> {
    if s.len() >= STREAM_LEN {
        Some(
            StreamV {
                input_token_pubkey: s.subrange(0, 32),
                output_token_pubkey: s.subrange(32, 64),
                next_stream: s.subrange(64, 96),
                interval_days: spec_u64_from_le_bytes(s.subrange(96, 104)) as i64,
                amount: spec_u64_from_le_bytes(s.subrange(104, 112)),
            },
        )
    } else {
        None
    }
}

impl Stream {
    /// Encodes the record into its fixed-width buffer.
    pub fn encode(&self) -> (r: Vec<u8>)
        requires
            self.wf(),
        ensures
            r@ == spec_encode_stream(self@),
            r@.len() == STREAM_LEN,
    {
        let mut out: Vec<u8> = Vec::new();
        out.extend_from_slice(self.input_token_pubkey.as_slice());
        out.extend_from_slice(self.output_token_pubkey.as_slice());
        out.extend_from_slice(self.next_stream.as_slice());
        let mut t = u64_to_le_bytes(self.interval_days as u64);
        out.append(&mut t);
        let mut t2 = u64_to_le_bytes(self.amount);
        out.append(&mut t2);
        proof {
            assert(out@ =~= spec_encode_stream(self@));
        }
        out
    }

    /// Decodes a record from a storage buffer; fails with `CorruptRecord`
    /// exactly when the bytes do not parse.
    pub fn unpack_from_slice(src: &[u8]) -> (r: Result<Stream, StepError>)
        ensures
            match r {
                Ok(v) => spec_decode_stream(src@) == Some(v@) && v.wf(),
                Err(e) => spec_decode_stream(src@) is None && e == StepError::CorruptRecord,
            },
    {
        let n = src.len();
        if n < STREAM_LEN {
            return Err(StepError::CorruptRecord);
        }
        let interval_bits = read_u64_le(src, 96);
        let v = Stream {
            input_token_pubkey: read_key(src, 0),
            output_token_pubkey: read_key(src, 32),
            next_stream: read_key(src, 64),
            interval_days: interval_bits as i64,
            amount: read_u64_le(src, 104),
        };
        proof {
            assert(Some(v@) =~= spec_decode_stream(src@));
        }
        Ok(v)
    }
}

// ---------------------------------------------------------------------------
// Codec laws: encode/decode round trips, and the all-zero buffer.
// ---------------------------------------------------------------------------

/// Zero encodes to eight zero bytes, and eight zero bytes decode to zero.
proof fn lemma_u64_zero_le_bytes()
    ensures
        spec_u64_to_le_bytes(0u64) == Seq::new(8, |i: int| 0u8),
        spec_u64_from_le_bytes(Seq::new(8, |i: int| 0u8)) == 0u64,
{
    vstd::bytes::lemma_auto_spec_u64_to_from_le_bytes();
    vstd::bytes::spec_u64_to_le_bytes_to_open(0u64);
    assert((0u64 & 0xff) == 0 && ((0u64 >> 8) & 0xff) == 0 && ((0u64 >> 16) & 0xff) == 0 && ((0u64
        >> 24) & 0xff) == 0 && ((0u64 >> 32) & 0xff) == 0 && ((0u64 >> 40) & 0xff) == 0 && ((0u64
        >> 48) & 0xff) == 0 && ((0u64 >> 56) & 0xff) == 0) by (bit_vector);
    assert(vstd::bytes::spec_u64_to_le_bytes_open(0u64) =~= Seq::new(8, |i: int| 0u8));
    assert(spec_u64_from_le_bytes(spec_u64_to_le_bytes(0u64)) == 0u64);
}

/// Casting an interval through its unsigned wire form is lossless.
proof fn lemma_i64_cast_roundtrip(x: i64)
    ensures
        ((x as u64) as i64) == x,
{
    assert(((x as u64) as i64) == x) by (bit_vector);
}

/// Round-trip fidelity: a program-state record decodes back to itself.
pub proof fn lemma_program_state_roundtrip(m: StepProgramStateV)
    requires
        m.wf(),
    ensures
        spec_decode_program_state(spec_encode_program_state(m)) == Some(m),
{
    let s = spec_encode_program_state(m);
    assert(s.subrange(1, 33) =~= m.deployer_pubkey);
    assert(spec_decode_program_state(s) =~= Some(m));
}

/// Round-trip fidelity: a pool record decodes back to itself.
pub proof fn lemma_pool_roundtrip(m: PoolV)
    requires
        m.wf(),
    ensures
        spec_decode_pool(spec_encode_pool(m)) == Some(m),
{
    let s = spec_encode_pool(m);
    assert(s.subrange(1, 33) =~= m.mint_pubkey);
    assert(s.subrange(33, 65) =~= m.pda_seed);
    assert(s.subrange(65, 97) =~= m.head_user);
    assert(spec_decode_pool(s) =~= Some(m));
}

/// Round-trip fidelity: a user record decodes back to itself.
pub proof fn lemma_user_account_roundtrip(m: UserAccountV)
    requires
        m.wf(),
    ensures
        spec_decode_user_account(spec_encode_user_account(m)) == Some(m),
{
    vstd::bytes::lemma_auto_spec_u64_to_from_le_bytes();
    let s = spec_encode_user_account(m);
    assert(s.subrange(0, 8) =~= spec_u64_to_le_bytes(m.balance));
    assert(s.subrange(8, 40) =~= m.next_user);
    assert(s.subrange(40, 72) =~= m.head_stream);
    assert(spec_decode_user_account(s) =~= Some(m));
}

/// Round-trip fidelity: a stream record decodes back to itself.
pub proof fn lemma_stream_roundtrip(m: StreamV)
    requires
        m.wf(),
    ensures
        spec_decode_stream(spec_encode_stream(m)) == Some(m),
{
    vstd::bytes::lemma_auto_spec_u64_to_from_le_bytes();
    lemma_i64_cast_roundtrip(m.interval_days);
    let s = spec_encode_stream(m);
    assert(s.subrange(0, 32) =~= m.input_token_pubkey);
    assert(s.subrange(32, 64) =~= m.output_token_pubkey);
    assert(s.subrange(64, 96) =~= m.next_stream);
    assert(s.subrange(96, 104) =~= spec_u64_to_le_bytes(m.interval_days as u64));
    assert(s.subrange(104, 112) =~= spec_u64_to_le_bytes(m.amount));
    assert(spec_decode_stream(s) =~= Some(m));
}

/// An all-zero buffer decodes to the uninitialized program state.
pub proof fn lemma_program_state_zero_decode(s: Seq<u8>)
    requires
        s.len() >= PROGRAM_STATE_LEN,
        forall|i: int| 0 <= i < s.len() ==> s[i] == 0u8,
    ensures
        spec_decode_program_state(s) matches Some(m) && !m.is_initialized && is_null_key(
            m.deployer_pubkey,
        ),
{
    let m = spec_decode_program_state(s).unwrap();
    assert(m.deployer_pubkey =~= null_key_seq());
}

/// An all-zero buffer decodes to an uninitialized pool whose head pointer is
/// the null sentinel.
pub proof fn lemma_pool_zero_decode(s: Seq<u8>)
    requires
        s.len() >= POOL_LEN,
        forall|i: int| 0 <= i < s.len() ==> s[i] == 0u8,
    ensures
        spec_decode_pool(s) matches Some(m) && !m.is_initialized && is_null_key(m.mint_pubkey)
            && is_null_key(m.pda_seed) && is_null_key(m.head_user),
{
    let m = spec_decode_pool(s).unwrap();
    assert(m.mint_pubkey =~= null_key_seq());
    assert(m.pda_seed =~= null_key_seq());
    assert(m.head_user =~= null_key_seq());
}

/// An all-zero buffer decodes to a fresh user record: zero balance and null
/// links.
pub proof fn lemma_user_account_zero_decode(s: Seq<u8>)
    requires
        s.len() >= USER_ACCOUNT_LEN,
        forall|i: int| 0 <= i < s.len() ==> s[i] == 0u8,
    ensures
        spec_decode_user_account(s) matches Some(m) && m.is_fresh(),
{
    lemma_u64_zero_le_bytes();
    let m = spec_decode_user_account(s).unwrap();
    assert(s.subrange(0, 8) =~= Seq::new(8, |i: int| 0u8));
    assert(m.next_user =~= null_key_seq());
    assert(m.head_stream =~= null_key_seq());
}

/// An all-zero buffer decodes to a stream with null identifiers, zero
/// interval and zero amount.
pub proof fn lemma_stream_zero_decode(s: Seq<u8>)
    requires
        s.len() >= STREAM_LEN,
        forall|i: int| 0 <= i < s.len() ==> s[i] == 0u8,
    ensures
        spec_decode_stream(s) matches Some(m) && is_null_key(m.input_token_pubkey) && is_null_key(
            m.output_token_pubkey,
        ) && is_null_key(m.next_stream) && m.interval_days == 0 && m.amount == 0,
{
    lemma_u64_zero_le_bytes();
    let m = spec_decode_stream(s).unwrap();
    assert(m.input_token_pubkey =~= null_key_seq());
    assert(m.output_token_pubkey =~= null_key_seq());
    assert(m.next_stream =~= null_key_seq());
    assert(s.subrange(96, 104) =~= Seq::new(8, |i: int| 0u8));
    assert(s.subrange(104, 112) =~= Seq::new(8, |i: int| 0u8));
}

} // verus!
