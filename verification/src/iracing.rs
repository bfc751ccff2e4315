//! The simulator family that publishes one region holding a header, a
//! self-describing variable table, N rotating data buffers each stamped with
//! a tick counter, and a block of raw session text.
//!
//! The reader selects the buffer with the greatest tick, copies it, and
//! re-checks that buffer's tick (see [`crate::protocol`] for why an accepted
//! copy is never torn).  A connection also goes stale when no verified frame
//! arrives within a freshness window even though the region stays mapped:
//! that distinguishes a paused producer from a crashed one.

use vstd::prelude::*;

use crate::schema::{VarHeader, VarDesc, VarValue, spec_read_named, read_named, le32, as_signed32,
    read_i32_le};

verus! {

/// Bit 0 of the header's status word: the producer is actively publishing.
pub const STATUS_CONNECTED_FLAG: i32 = 1;

/// How long a connection may go without a verified frame before it counts as
/// dead, in milliseconds.  A policy constant tuned per simulator, not an
/// invariant of the protocol.
pub const CLIENT_TIMEOUT_MS: u64 = 30000;

/// One rotating data buffer's header entry: its publish tick and where its
/// bytes start in the region.
#[derive(Clone, Copy, Debug, PartialEq, Eq, Structural)]
pub struct VarBuf {
    /// Incremented once per publish into this buffer.
    pub tick_count: i32,
    /// Byte offset of this buffer's data in the region.
    pub buf_offset: i32,
}

/// The region header, as captured by one read of the mapped region.
#[derive(Clone, Debug, PartialEq, Eq)]
pub struct Header {
    /// Status flags; see [`STATUS_CONNECTED_FLAG`].
    pub status: i32,
    /// Length in bytes of one data buffer.
    pub buf_len: i32,
    /// How many variables the table declares.
    pub num_vars: i32,
    /// Byte offset of the variable table in the region.
    pub var_header_offset: i32,
    /// Byte offset of the session text in the region.
    pub session_info_offset: i32,
    /// Length in bytes of the session text.
    pub session_info_len: i32,
    /// The rotating buffers' entries.
    pub var_buf: Vec<VarBuf>,
}

/// Byte offset of the status word in the mapped region.
pub const STATUS_OFFSET: usize = 4;

/// Byte offset of the session text length.
pub const SESSION_INFO_LEN_OFFSET: usize = 16;

/// Byte offset of the session text offset.
pub const SESSION_INFO_OFFSET_OFFSET: usize = 20;

/// Byte offset of the declared variable count.
pub const NUM_VARS_OFFSET: usize = 24;

/// Byte offset of the variable table offset.
pub const VAR_HEADER_OFFSET_OFFSET: usize = 28;

/// Byte offset of the declared buffer count.
pub const NUM_BUF_OFFSET: usize = 32;

/// Byte offset of the per-buffer length.
pub const BUF_LEN_OFFSET: usize = 36;

/// Byte offset of the first rotating buffer's entry.
pub const VAR_BUF_OFFSET: usize = 48;

/// Stride in bytes between rotating buffer entries.
pub const VAR_BUF_STRIDE: usize = 16;

/// The fixed number of rotating buffer entries in the layout.
pub const MAX_BUFS: usize = 4;

/// How many leading bytes of the region the header occupies.
pub const HEADER_SIZE: usize = 48 + 4 * 16;

/// The signed little-endian field at byte offset `off` of the region.
pub open spec fn spec_header_field(r: Seq<u8>, off: int) -> int {
    as_signed32(le32(r, off))
}

/// How many rotating buffer entries a declared count yields: clamped to
/// `[0, MAX_BUFS]`, the room the fixed layout actually has.
pub open spec fn spec_num_bufs(r: Seq<u8>) -> int {
    let declared = spec_header_field(r, NUM_BUF_OFFSET as int);
    if declared < 0 {
        0
    } else if declared > MAX_BUFS {
        MAX_BUFS as int
    } else {
        declared
    }
}

/// Reads the region header out of a captured image: `None` when the image
/// is too short to hold one; otherwise every field read little-endian at
/// its fixed offset, with the buffer entries clamped to the room the layout
/// has, so a corrupt declared count cannot push the read out of range.
pub fn parse_header(region: &[u8]) -> (r: Option<Header>)
    ensures
        region@.len() < HEADER_SIZE ==> r is None,
        region@.len() >= HEADER_SIZE ==> (r matches Some(h) && {
            &&& h.status == spec_header_field(region@, STATUS_OFFSET as int)
            &&& h.buf_len == spec_header_field(region@, BUF_LEN_OFFSET as int)
            &&& h.num_vars == spec_header_field(region@, NUM_VARS_OFFSET as int)
            &&& h.var_header_offset == spec_header_field(region@, VAR_HEADER_OFFSET_OFFSET as int)
            &&& h.session_info_offset == spec_header_field(
                region@,
                SESSION_INFO_OFFSET_OFFSET as int,
            )
            &&& h.session_info_len == spec_header_field(region@, SESSION_INFO_LEN_OFFSET as int)
            &&& h.var_buf@.len() == spec_num_bufs(region@)
            &&& forall|i: int|
                0 <= i < h.var_buf@.len() ==> #[trigger] h.var_buf@[i] == (VarBuf {
                    tick_count: spec_header_field(
                        region@,
                        VAR_BUF_OFFSET + i * VAR_BUF_STRIDE,
                    ) as i32,
                    buf_offset: spec_header_field(
                        region@,
                        VAR_BUF_OFFSET + i * VAR_BUF_STRIDE + 4,
                    ) as i32,
                })
        }),
{
    if region.len() < HEADER_SIZE {
        return None;
    }
    let declared = read_i32_le(region, NUM_BUF_OFFSET);
    let num_buf: usize = if declared < 0 {
        0
    } else if declared > 4 {
        4
    } else {
        declared as usize
    };
    let mut var_buf: Vec<VarBuf> = Vec::new();
    let mut i: usize = 0;
    while i < num_buf
        invariant
            0 <= i <= num_buf <= 4,
            region@.len() >= HEADER_SIZE,
            var_buf@.len() == i,
            forall|k: int|
                0 <= k < i ==> #[trigger] var_buf@[k] == (VarBuf {
                    tick_count: spec_header_field(
                        region@,
                        VAR_BUF_OFFSET + k * VAR_BUF_STRIDE,
                    ) as i32,
                    buf_offset: spec_header_field(
                        region@,
                        VAR_BUF_OFFSET + k * VAR_BUF_STRIDE + 4,
                    ) as i32,
                }),
        decreases num_buf - i,
    {
        let base = VAR_BUF_OFFSET + i * VAR_BUF_STRIDE;
        var_buf.push(
            VarBuf {
                tick_count: read_i32_le(region, base),
                buf_offset: read_i32_le(region, base + 4),
            },
        );
        i = i + 1;
    }
    Some(
        Header {
            status: read_i32_le(region, STATUS_OFFSET),
            buf_len: read_i32_le(region, BUF_LEN_OFFSET),
            num_vars: read_i32_le(region, NUM_VARS_OFFSET),
            var_header_offset: read_i32_le(region, VAR_HEADER_OFFSET_OFFSET),
            session_info_offset: read_i32_le(region, SESSION_INFO_OFFSET_OFFSET),
            session_info_len: read_i32_le(region, SESSION_INFO_LEN_OFFSET),
            var_buf,
        },
    )
}

/// Whether the header's status word reports the producer as publishing.
pub open spec fn spec_header_connected(status: i32) -> bool {
    status & STATUS_CONNECTED_FLAG != 0
}

/// The liveness gate: bit 0 of the status word.
pub fn is_header_connected(header: &Header) -> (r: bool)
    ensures
        r == spec_header_connected(header.status),
{
    header.status & STATUS_CONNECTED_FLAG != 0
}

/// Picks the buffer to read: the one with the strictly greatest tick; if two
/// buffers ever carried the same tick, the lowest index wins, so the choice
/// is deterministic.
pub fn select_latest_buffer(bufs: &Vec<VarBuf>) -> (idx: usize)
    requires
        bufs@.len() >= 1,
    ensures
        0 <= idx < bufs@.len(),
        forall|k: int| 0 <= k < bufs@.len() ==> (#[trigger] bufs@[k]).tick_count
            <= bufs@[idx as int].tick_count,
        forall|k: int| 0 <= k < idx ==> (#[trigger] bufs@[k]).tick_count
            < bufs@[idx as int].tick_count,
{
    let mut latest: usize = 0;
    let mut idx: usize = 1;
    while idx < bufs.len()
        invariant
            0 <= latest < idx <= bufs@.len(),
            forall|k: int| 0 <= k < idx ==> (#[trigger] bufs@[k]).tick_count
                <= bufs@[latest as int].tick_count,
            forall|k: int| 0 <= k < latest ==> (#[trigger] bufs@[k]).tick_count
                < bufs@[latest as int].tick_count,
        decreases bufs@.len() - idx,
    {
        if bufs[latest].tick_count < bufs[idx].tick_count {
            latest = idx;
        }
        idx = idx + 1;
    }
    latest
}

/// The per-connection cursor: the buffer length the variable table was last
/// parsed against, and the tick of the last frame handed to the consumer.
#[derive(Clone, Copy, Debug, PartialEq, Eq, Structural)]
pub struct ClientCursor {
    /// `buf_len` at the last schema parse; -1 before any parse.
    pub vars_at_buf_len: i32,
    /// Tick of the last consumed frame; `i32::MAX` while disconnected, so
    /// that a fresh or restarted producer is always behind it until its
    /// first frame is seen.
    pub last_tick_count: i32,
}

impl ClientCursor {
    /// The cursor of a newly connected client: no schema parsed yet, no
    /// frame consumed yet.
    pub fn new() -> (c: ClientCursor)
        ensures
            c.vars_at_buf_len == -1,
            c.last_tick_count == i32::MAX,
    {
        ClientCursor { vars_at_buf_len: -1, last_tick_count: i32::MAX }
    }

    /// The cheap invalidation check for the variable table: re-parse exactly
    /// when the declared buffer length differs from the one seen at the last
    /// parse.
    pub fn needs_var_refresh(&self, buf_len: i32) -> (r: bool)
        ensures
            r == (self.vars_at_buf_len != buf_len),
    {
        self.vars_at_buf_len != buf_len
    }

    /// Records that the variable table was parsed against `buf_len`.
    pub fn note_vars_parsed(&mut self, buf_len: i32)
        ensures
            final(self).vars_at_buf_len == buf_len,
            final(self).last_tick_count == old(self).last_tick_count,
    {
        self.vars_at_buf_len = buf_len;
    }
}

/// What one poll decides before any payload is copied.
#[derive(Clone, Copy, Debug, PartialEq, Eq, Structural)]
pub enum FrameQuery {
    /// The status word says the producer stopped: no frame, and the cursor
    /// resets so a restarted producer starts fresh.
    Disconnected,
    /// Nothing newer than the last consumed frame: wait for the next wake.
    UpToDate,
    /// A buffer with a newer tick exists: copy it, then confirm with
    /// [`commit_frame`].
    Read { tick: i32 },
}

/// What [`prepare_frame`] decides from the connection flag and the selected
/// buffer's tick.
pub open spec fn spec_prepare_frame(
    cursor: ClientCursor,
    connected: bool,
    latest_tick: i32,
) -> (ClientCursor, FrameQuery) {
    if !connected {
        (
            ClientCursor { vars_at_buf_len: cursor.vars_at_buf_len, last_tick_count: i32::MAX },
            FrameQuery::Disconnected,
        )
    } else if cursor.last_tick_count >= latest_tick {
        (
            ClientCursor { vars_at_buf_len: cursor.vars_at_buf_len, last_tick_count: latest_tick },
            FrameQuery::UpToDate,
        )
    } else {
        (cursor, FrameQuery::Read { tick: latest_tick })
    }
}

/// Decides whether a copy is worth attempting: only when the producer is
/// publishing and the freshest buffer's tick is strictly beyond the last
/// consumed frame.  When the producer is off, the cursor's tick resets to
/// `i32::MAX`; when the freshest tick is not newer (including a producer
/// restart that lowered ticks), the cursor adopts it so the stream resumes
/// from there.
pub fn prepare_frame(cursor: &mut ClientCursor, connected: bool, latest_tick: i32) -> (q:
    FrameQuery)
    ensures
        (*final(cursor), q) == spec_prepare_frame(*old(cursor), connected, latest_tick),
{
    if !connected {
        cursor.last_tick_count = i32::MAX;
        return FrameQuery::Disconnected;
    }
    if cursor.last_tick_count >= latest_tick {
        cursor.last_tick_count = latest_tick;
        return FrameQuery::UpToDate;
    }
    FrameQuery::Read { tick: latest_tick }
}

/// What [`commit_frame`] decides from the tick reads around the copy.
pub open spec fn spec_commit_frame(
    cursor: ClientCursor,
    tick_before: i32,
    tick_after: i32,
) -> (ClientCursor, bool) {
    if tick_before == tick_after {
        (
            ClientCursor { vars_at_buf_len: cursor.vars_at_buf_len, last_tick_count: tick_before },
            true,
        )
    } else {
        (cursor, false)
    }
}

/// The post-copy consistency check of the tick scheme: the copy is accepted
/// exactly when the buffer's tick did not move while it was copied; an
/// accepted frame advances the cursor, a torn one leaves it unchanged so the
/// copy is retried or the cycle ends with no frame.
pub fn commit_frame(cursor: &mut ClientCursor, tick_before: i32, tick_after: i32) -> (accepted:
    bool)
    ensures
        (*final(cursor), accepted) == spec_commit_frame(*old(cursor), tick_before, tick_after),
{
    if tick_before == tick_after {
        cursor.last_tick_count = tick_before;
        true
    } else {
        false
    }
}

/// Frames are consumed in strictly increasing tick order: a copy is only
/// asked for when the freshest tick lies strictly beyond the last consumed
/// frame, and committing that copy makes its tick the new last — so each
/// emitted frame's tick strictly exceeds the one before it.
pub proof fn lemma_emitted_ticks_increase(cursor: ClientCursor, connected: bool, tick: i32)
    requires
        spec_prepare_frame(cursor, connected, tick).1 == (FrameQuery::Read { tick }),
    ensures
        tick > cursor.last_tick_count,
        spec_commit_frame(spec_prepare_frame(cursor, connected, tick).0, tick, tick).1,
        spec_commit_frame(
            spec_prepare_frame(cursor, connected, tick).0,
            tick,
            tick,
        ).0.last_tick_count == tick,
{
}

/// Whether the connection still counts as live: the status word must report
/// the producer publishing, and, once any frame has been verified, the time
/// since the last verified frame must lie inside the freshness window.
pub open spec fn spec_connection_is_live(
    header_connected: bool,
    elapsed_ms: Option<u64>,
    timeout_ms: u64,
) -> bool {
    header_connected && match elapsed_ms {
        None => true,
        Some(e) => e < timeout_ms,
    }
}

/// The staleness gate; `elapsed_ms` is the time since the last verified
/// frame, or `None` while no frame has been verified yet.
pub fn connection_is_live(header_connected: bool, elapsed_ms: Option<u64>, timeout_ms: u64) -> (r:
    bool)
    ensures
        r == spec_connection_is_live(header_connected, elapsed_ms, timeout_ms),
{
    if !header_connected {
        return false;
    }
    match elapsed_ms {
        None => true,
        Some(e) => e < timeout_ms,
    }
}

/// One fully verified frame: the header as captured at acceptance, the
/// variable table it was read under, the accepted data buffer copy, and the
/// raw session text.  Never mutated once built; the outer layer shares it by
/// reference with any number of consumers.
#[derive(Clone, Debug, PartialEq, Eq)]
pub struct SimState {
    pub header: Header,
    pub vars: Vec<VarHeader>,
    pub data: Vec<u8>,
    pub raw_session_info: Vec<u8>,
}

impl SimState {
    /// Bundles an accepted frame.
    pub fn new(header: Header, vars: Vec<VarHeader>, data: Vec<u8>, raw_session_info: Vec<u8>)
        -> (s: SimState)
        ensures
            s.header == header,
            s.vars == vars,
            s.data == data,
            s.raw_session_info == raw_session_info,
    {
        SimState { header, vars, data, raw_session_info }
    }

    /// Reads the scalar value of a named variable out of this frame: `None`
    /// when the schema does not declare the name, never a failure.
    pub fn read_named(&self, name: &str) -> (r: Option<VarValue>)
        ensures
            r == spec_read_named(
                self.vars@.map_values(|h: VarHeader| h@),
                self.data@,
                name@,
            ),
    {
        read_named(&self.vars, self.data.as_slice(), name)
    }
}

} // verus!
