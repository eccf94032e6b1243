//! Classification of a pad's negotiated media type.
//!
//! The demultiplexer tags each output pad with a media-type name such
//! as `audio/mpeg` or `video/x-raw`. The handler only cares whether the
//! name starts with `audio/` or `video/`; everything else is left
//! unwired.

use vstd::prelude::*;

verus! {

/// The three classes a discovered pad can fall into.
#[derive(Clone, Copy, PartialEq, Eq, Structural, Debug)]
pub enum MediaClass {
    Audio,
    Video,
    Unsupported,
}

/// `p` is a prefix of `s`.
pub open spec fn spec_has_prefix(s: Seq<char>, p: Seq<char>) -> bool {
    p.len() <= s.len() && s.subrange(0, p.len() as int) == p
}

/// Class of a media-type name: `audio/*`, `video/*`, or neither.
pub open spec fn spec_classify(name: Seq<char>) -> MediaClass {
    if spec_has_prefix(name, "audio/"@) {
        MediaClass::Audio
    } else if spec_has_prefix(name, "video/"@) {
        MediaClass::Video
    } else {
        MediaClass::Unsupported
    }
}

/// Does `s` start with `p`?
pub fn has_prefix(s: &str, p: &str) -> (r: bool)
    ensures
        r == spec_has_prefix(s@, p@),
{
    let sn = s.unicode_len();
    let pn = p.unicode_len();
    if pn > sn {
        return false;
    }
    let mut i: usize = 0;
    while i < pn
        invariant
            sn == s@.len(),
            pn == p@.len(),
            pn <= sn,
            i <= pn,
            forall|j: int| 0 <= j < i ==> s@[j] == p@[j],
        decreases pn - i,
    {
        let sc = s.get_char(i);
        let pc = p.get_char(i);
        if sc != pc {
            assert(s@.subrange(0, p@.len() as int)[i as int] != p@[i as int]);
            return false;
        }
        i = i + 1;
    }
    assert(s@.subrange(0, p@.len() as int) =~= p@);
    true
}

/// Derive the pad class from the negotiated media-type name, exactly as
/// the handler does: an `audio/` prefix wins, then a `video/` prefix,
/// and any other name is unsupported.
pub fn classify_media_type(name: &str) -> (c: MediaClass)
    ensures
        c == spec_classify(name@),
{
    if has_prefix(name, "audio/") {
        MediaClass::Audio
    } else if has_prefix(name, "video/") {
        MediaClass::Video
    } else {
        MediaClass::Unsupported
    }
}

} // verus!
