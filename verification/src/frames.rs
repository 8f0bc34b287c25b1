//! The control-frame codec of the attach tunnel's inbound direction.
//!
//! A frame is UTF-8 text of the form `TAG|BODY`. The body is everything
//! after the first `|`, so a body may itself contain `|`. The reserved tag
//! `END_TUNNEL` asks for clean shutdown; any other tag marks its body as
//! raw bytes for the container's stdin. The codec works on the frame's
//! bytes; `|` is a single byte in UTF-8, so splitting at its first
//! occurrence is exact.

use vstd::prelude::*;

verus! {

/// The frame separator, the byte of `|`.
pub const FRAME_SEPARATOR: u8 = 124;

/// A parsed control frame: the shutdown sentinel, or a body for stdin.
pub enum ControlFrame {
    EndTunnel,
    Data(Vec<u8>),
}

/// The bytes of the reserved tag `END_TUNNEL`.
pub open spec fn end_tunnel_tag() -> Seq<u8> {
    seq![69u8, 78u8, 68u8, 95u8, 84u8, 85u8, 78u8, 78u8, 69u8, 76u8]
}

/// The first separator at or after position `i`, or the message's length
/// when there is none.
pub open spec fn first_sep_from(msg: Seq<u8>, i: int) -> int
    decreases msg.len() - i,
{
    if i < 0 || i >= msg.len() {
        msg.len() as int
    } else if msg[i] == FRAME_SEPARATOR {
        i
    } else {
        first_sep_from(msg, i + 1)
    }
}

/// The position of the frame's separator: the first `|` byte, or the
/// message's length when the message holds none and is no frame at all.
pub open spec fn first_sep(msg: Seq<u8>) -> int {
    first_sep_from(msg, 0)
}

/// The frame's tag: the bytes before the first separator.
pub open spec fn frame_tag(msg: Seq<u8>) -> Seq<u8> {
    msg.take(first_sep(msg))
}

/// The frame's body: the bytes after the first separator.
pub open spec fn frame_body(msg: Seq<u8>) -> Seq<u8> {
    msg.skip(first_sep(msg) + 1)
}

/// What parsing a message yields: nothing for a message without a
/// separator, the shutdown sentinel for the reserved tag, and otherwise
/// the body, exactly as it stands after the first separator.
pub open spec fn parse_result_ok(msg: Seq<u8>, r: Option<ControlFrame>) -> bool {
    if first_sep(msg) == msg.len() {
        r is None
    } else if frame_tag(msg) == end_tunnel_tag() {
        r == Some(ControlFrame::EndTunnel)
    } else {
        r matches Some(f) && f matches ControlFrame::Data(b) && b@ == frame_body(msg)
    }
}

/// A found separator before which no byte is one is the first.
proof fn lemma_first_sep_at(msg: Seq<u8>, i: int)
    requires
        0 <= i < msg.len(),
        msg[i] == FRAME_SEPARATOR,
        forall|j: int| 0 <= j < i ==> msg[j] != FRAME_SEPARATOR,
    ensures
        first_sep(msg) == i,
    decreases i,
{
    lemma_first_sep_from_skips(msg, 0, i);
}

/// `first_sep_from` runs past positions that hold no separator.
proof fn lemma_first_sep_from_skips(msg: Seq<u8>, lo: int, i: int)
    requires
        0 <= lo <= i < msg.len(),
        msg[i] == FRAME_SEPARATOR,
        forall|j: int| lo <= j < i ==> msg[j] != FRAME_SEPARATOR,
    ensures
        first_sep_from(msg, lo) == i,
    decreases i - lo,
{
    if lo < i {
        lemma_first_sep_from_skips(msg, lo + 1, i);
    }
}

/// A message without a separator has its length as separator position.
proof fn lemma_first_sep_none(msg: Seq<u8>, lo: int)
    requires
        0 <= lo,
        forall|j: int| lo <= j < msg.len() ==> msg[j] != FRAME_SEPARATOR,
    ensures
        first_sep_from(msg, lo) == msg.len(),
    decreases msg.len() - lo,
{
    if lo < msg.len() {
        lemma_first_sep_none(msg, lo + 1);
    }
}

/// Parses one UI message as a control frame. `None` means the message
/// holds no separator and is no frame; such a message is ignored rather
/// than forwarded.
pub fn parse_frame(msg: &Vec<u8>) -> (r: Option<ControlFrame>)
    ensures
        parse_result_ok(msg@, r),
{
    let mut k: usize = 0;
    while k < msg.len() && msg[k] != FRAME_SEPARATOR
        invariant
            0 <= k <= msg@.len(),
            forall|j: int| 0 <= j < k ==> msg@[j] != FRAME_SEPARATOR,
        decreases msg@.len() - k,
    {
        k = k + 1;
    }
    if k == msg.len() {
        proof {
            lemma_first_sep_none(msg@, 0);
        }
        return None;
    }
    proof {
        lemma_first_sep_at(msg@, k as int);
    }
    let is_end = k == 10 && msg[0] == 69 && msg[1] == 78 && msg[2] == 68 && msg[3] == 95
        && msg[4] == 84 && msg[5] == 85 && msg[6] == 78 && msg[7] == 78 && msg[8] == 69
        && msg[9] == 76;
    if is_end {
        proof {
            assert(frame_tag(msg@) =~= end_tunnel_tag());
        }
        Some(ControlFrame::EndTunnel)
    } else {
        proof {
            if frame_tag(msg@) == end_tunnel_tag() {
                assert(frame_tag(msg@).len() == 10);
                assert(msg@[0] == end_tunnel_tag()[0]);
                assert(msg@[1] == end_tunnel_tag()[1]);
                assert(msg@[2] == end_tunnel_tag()[2]);
                assert(msg@[3] == end_tunnel_tag()[3]);
                assert(msg@[4] == end_tunnel_tag()[4]);
                assert(msg@[5] == end_tunnel_tag()[5]);
                assert(msg@[6] == end_tunnel_tag()[6]);
                assert(msg@[7] == end_tunnel_tag()[7]);
                assert(msg@[8] == end_tunnel_tag()[8]);
                assert(msg@[9] == end_tunnel_tag()[9]);
            }
        }
        let mut body: Vec<u8> = Vec::new();
        let mut i: usize = k + 1;
        while i < msg.len()
            invariant
                k + 1 <= i <= msg@.len(),
                body@ == msg@.subrange(k + 1, i as int),
            decreases msg@.len() - i,
        {
            body.push(msg[i]);
            i = i + 1;
        }
        proof {
            assert(body@ =~= frame_body(msg@));
        }
        Some(ControlFrame::Data(body))
    }
}

/// Control-frame parsing, stated over a frame built from its parts: for a
/// separator-free tag and any body, the frame `TAG|BODY` parses to its
/// body exactly when the tag is not the reserved one, and to the shutdown
/// sentinel when it is.
pub proof fn lemma_control_frame_round_trip(tag: Seq<u8>, body: Seq<u8>)
    requires
        forall|j: int| 0 <= j < tag.len() ==> tag[j] != FRAME_SEPARATOR,
    ensures
        first_sep(tag + seq![FRAME_SEPARATOR] + body) == tag.len(),
        frame_tag(tag + seq![FRAME_SEPARATOR] + body) == tag,
        frame_body(tag + seq![FRAME_SEPARATOR] + body) == body,
{
    let msg = tag + seq![FRAME_SEPARATOR] + body;
    assert(msg[tag.len() as int] == FRAME_SEPARATOR);
    assert(forall|j: int| 0 <= j < tag.len() ==> msg[j] == tag[j]);
    lemma_first_sep_at(msg, tag.len() as int);
    assert(frame_tag(msg) =~= tag);
    assert(frame_body(msg) =~= body);
}

} // verus!
