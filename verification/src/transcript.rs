//! Byte-counting, banner-extracting tap around the raw transport stream.
//!
//! Each direction accumulates a running byte counter and buffers up to 2048
//! bytes until a newline appears; the first line is kept as the peer
//! identification banner when it begins with `SSH-`. Once a banner is
//! captured for a direction, that direction stops buffering.

use vstd::prelude::*;
use crate::text::{has_prefix, trim, trim_spec, starts_with_str, opt_str_view, clone_opt_string};

verus! {

/// Maximum number of bytes buffered per direction while waiting for the
/// identification line.
pub const BANNER_BUF_MAX: usize = 2048;

/// Point-in-time counters and banners for one handshake attempt.
#[derive(Debug)]
pub struct HandshakeDiag {
    pub attempt_id: String,
    pub client_id: Option<String>,
    pub server_id: Option<String>,
    pub bytes_written: u64,
    pub bytes_read: u64,
}

/// What String::from_utf8_lossy returns: a function of the bytes alone.
pub uninterp spec fn lossy_decode(b: Seq<u8>) -> Seq<char>;

/// Relies on String::from_utf8_lossy: the decoding depends on the bytes
/// alone, and ASCII bytes decode to themselves.
#[verifier::external_body]
fn utf8_lossy(bytes: &[u8]) -> (r: String)
    ensures
        r@ == lossy_decode(bytes@),
        (forall|i: int| 0 <= i < bytes@.len() ==> bytes@[i] < 128) ==> r@ =~= bytes@.map_values(
            |b: u8| b as char,
        ),
{
    String::from_utf8_lossy(bytes).into_owned()
}

/// Index of the first newline byte at or after `i`, or `-1`.
pub open spec fn first_nl(b: Seq<u8>, i: int) -> int
    decreases b.len() - i,
{
    if i < 0 || i >= b.len() {
        -1
    } else if b[i] == 10 {
        i
    } else {
        first_nl(b, i + 1)
    }
}

/// The banner a direction buffer yields: the first line, trimmed, when it
/// begins with `SSH-`.
pub open spec fn banner_of(b: Seq<u8>) -> Option<Seq<char>> {
    let p = first_nl(b, 0);
    if p >= 0 {
        let line = trim_spec(lossy_decode(b.subrange(0, p + 1)));
        if has_prefix(line, "SSH-"@) {
            Some(line)
        } else {
            None
        }
    } else {
        None
    }
}

/// A direction buffer after absorbing `d`: grown with a prefix of `d` up to
/// the 2048-byte cap.
pub open spec fn absorbed(b: Seq<u8>, d: Seq<u8>) -> Seq<u8> {
    if b.len() < 2048 {
        let room = 2048 - b.len();
        if d.len() <= room {
            b + d
        } else {
            b + d.subrange(0, room as int)
        }
    } else {
        b
    }
}

fn find_newline(buf: &Vec<u8>) -> (r: Option<usize>)
    ensures
        match r {
            Some(p) => first_nl(buf@, 0) == p as int && (p as int) < buf@.len(),
            None => first_nl(buf@, 0) == -1,
        },
{
    let mut i: usize = 0;
    while i < buf.len()
        invariant
            i <= buf@.len(),
            first_nl(buf@, 0) == first_nl(buf@, i as int),
        decreases buf@.len() - i,
    {
        if buf[i] == 10 {
            return Some(i);
        }
        i = i + 1;
    }
    None
}

/// Transcript of one connection attempt: counters plus the banner state of
/// each direction.
pub struct HandshakeTranscript {
    pub bytes_read: u64,
    pub bytes_written: u64,
    pub client_buf: Vec<u8>,
    pub server_buf: Vec<u8>,
    pub client_id: Option<String>,
    pub server_id: Option<String>,
}

/// One direction of the tap: extend the buffer, then capture the banner if a
/// complete first line is available and looks like an identification line.
fn banner_absorb(buf: &mut Vec<u8>, id: &mut Option<String>, data: &[u8])
    requires
        *old(id) is None,
        old(buf)@.len() <= 2048,
    ensures
        final(buf)@ == absorbed(old(buf)@, data@),
        final(buf)@.len() <= 2048,
        opt_str_view(*final(id)) == banner_of(final(buf)@),
{
    let mut k: usize = 0;
    let n = data.len();
    while k < n && buf.len() < BANNER_BUF_MAX
        invariant
            k <= n,
            n == data@.len(),
            buf@.len() <= 2048,
            absorbed(old(buf)@, data@) == absorbed(buf@, data@.subrange(k as int, n as int)),
        decreases n - k,
    {
        let ghost prev = buf@;
        buf.push(data[k]);
        proof {
            let rest = data@.subrange(k as int, n as int);
            let rest2 = data@.subrange(k + 1, n as int);
            assert(rest =~= seq![data@[k as int]] + rest2);
            assert(absorbed(prev, rest) =~= absorbed(buf@, rest2));
        }
        k = k + 1;
    }
    proof {
        let rest = data@.subrange(k as int, n as int);
        if k == n {
            assert(rest =~= Seq::<u8>::empty());
            assert(absorbed(buf@, rest) =~= buf@);
        } else {
            assert(buf@.len() == 2048);
            assert(absorbed(buf@, rest) =~= buf@);
        }
        assert(final(buf)@ == absorbed(old(buf)@, data@));
    }
    match find_newline(buf) {
        Some(pos) => {
            let mut line: Vec<u8> = Vec::new();
            let mut t: usize = 0;
            while t <= pos
                invariant
                    t <= pos + 1,
                    pos < buf@.len(),
                    pos < 2048,
                    line@ =~= buf@.subrange(0, t as int),
                decreases pos + 1 - t,
            {
                line.push(buf[t]);
                t = t + 1;
            }
            let decoded = utf8_lossy(line.as_slice());
            let trimmed = trim(decoded.as_str());
            if starts_with_str(trimmed.as_str(), "SSH-") {
                *id = Some(trimmed);
            } else {
                assert(opt_str_view(*id) == banner_of(buf@));
            }
        },
        None => {
            assert(opt_str_view(*id) == banner_of(buf@));
        },
    }
}

impl HandshakeTranscript {
    /// A fresh transcript: zero counters, empty buffers, no banners.
    pub fn new() -> (r: Self)
        ensures
            r.bytes_read == 0,
            r.bytes_written == 0,
            r.client_buf@ =~= Seq::<u8>::empty(),
            r.server_buf@ =~= Seq::<u8>::empty(),
            r.client_id is None,
            r.server_id is None,
    {
        HandshakeTranscript {
            bytes_read: 0,
            bytes_written: 0,
            client_buf: Vec::new(),
            server_buf: Vec::new(),
            client_id: None,
            server_id: None,
        }
    }

    /// Well-formedness: direction buffers never exceed the cap.
    pub open spec fn wf(&self) -> bool {
        self.client_buf@.len() <= 2048 && self.server_buf@.len() <= 2048
    }

    /// Absorb bytes written toward the server.
    pub fn on_write(&mut self, data: &[u8])
        requires
            old(self).wf(),
        ensures
            final(self).wf(),
            final(self).bytes_written == (old(self).bytes_written + data@.len()) % 0x1_0000_0000_0000_0000,
            final(self).bytes_read == old(self).bytes_read,
            final(self).server_buf == old(self).server_buf,
            final(self).server_id == old(self).server_id,
            old(self).client_id is Some ==> final(self).client_buf == old(self).client_buf
                && final(self).client_id == old(self).client_id,
            old(self).client_id is None ==> final(self).client_buf@ == absorbed(
                old(self).client_buf@,
                data@,
            ) && opt_str_view(final(self).client_id) == banner_of(final(self).client_buf@),
    {
        self.bytes_written = self.bytes_written.wrapping_add(data.len() as u64);
        if self.client_id.is_none() {
            banner_absorb(&mut self.client_buf, &mut self.client_id, data);
        }
    }

    /// Absorb bytes read from the server.
    pub fn on_read(&mut self, data: &[u8])
        requires
            old(self).wf(),
        ensures
            final(self).wf(),
            final(self).bytes_read == (old(self).bytes_read + data@.len()) % 0x1_0000_0000_0000_0000,
            final(self).bytes_written == old(self).bytes_written,
            final(self).client_buf == old(self).client_buf,
            final(self).client_id == old(self).client_id,
            old(self).server_id is Some ==> final(self).server_buf == old(self).server_buf
                && final(self).server_id == old(self).server_id,
            old(self).server_id is None ==> final(self).server_buf@ == absorbed(
                old(self).server_buf@,
                data@,
            ) && opt_str_view(final(self).server_id) == banner_of(final(self).server_buf@),
    {
        self.bytes_read = self.bytes_read.wrapping_add(data.len() as u64);
        if self.server_id.is_none() {
            banner_absorb(&mut self.server_buf, &mut self.server_id, data);
        }
    }

    /// Diagnostics snapshot for one attempt.
    pub fn snapshot(&self, attempt_id: &str) -> (r: HandshakeDiag)
        ensures
            r.attempt_id@ == attempt_id@,
            opt_str_view(r.client_id) == opt_str_view(self.client_id),
            opt_str_view(r.server_id) == opt_str_view(self.server_id),
            r.bytes_written == self.bytes_written,
            r.bytes_read == self.bytes_read,
    {
        HandshakeDiag {
            attempt_id: attempt_id.to_owned(),
            client_id: clone_opt_string(&self.client_id),
            server_id: clone_opt_string(&self.server_id),
            bytes_written: self.bytes_written,
            bytes_read: self.bytes_read,
        }
    }
}

} // verus!
