//! A finished recording of one track, and the sanitization of track titles
//! into file names.

use vstd::prelude::*;
use vstd::string::StringExecFns;

verus! {

/// Characters that must never appear in a file name derived from a track
/// title: the path-hostile set, plus `.` so that a title cannot smuggle in
/// an extension of its own.
pub open spec fn is_reserved_char(c: char) -> bool {
    c == '/' || c == '\\' || c == ':' || c == '<' || c == '>' || c == '"' || c == '|' || c == '?'
        || c == '*' || c == '.'
}

/// A title with every reserved character removed; the order of the remaining
/// characters is kept.
pub open spec fn sanitized(s: Seq<char>) -> Seq<char>
    decreases s.len(),
{
    if s.len() == 0 {
        Seq::empty()
    } else if is_reserved_char(s.last()) {
        sanitized(s.drop_last())
    } else {
        sanitized(s.drop_last()).push(s.last())
    }
}

/// A sanitized title contains no reserved character, whatever the input was.
pub proof fn lemma_sanitized_clean(s: Seq<char>)
    ensures
        forall|i: int| 0 <= i < sanitized(s).len() ==> !is_reserved_char(sanitized(s)[i]),
    decreases s.len(),
{
    if s.len() > 0 {
        lemma_sanitized_clean(s.drop_last());
        let prefix = sanitized(s.drop_last());
        if is_reserved_char(s.last()) {
            assert(sanitized(s) == prefix);
        } else {
            assert(sanitized(s) == prefix.push(s.last()));
            assert forall|i: int| 0 <= i < sanitized(s).len() implies !is_reserved_char(
                sanitized(s)[i],
            ) by {
                if i < prefix.len() {
                    assert(sanitized(s)[i] == prefix[i]);
                } else {
                    assert(sanitized(s)[i] == s.last());
                }
            }
        }
    }
}

/// Sanitization changes nothing on a title that is already clean.
pub proof fn lemma_sanitized_identity(s: Seq<char>)
    requires
        forall|i: int| 0 <= i < s.len() ==> !is_reserved_char(s[i]),
    ensures
        sanitized(s) == s,
    decreases s.len(),
{
    if s.len() > 0 {
        lemma_sanitized_identity(s.drop_last());
        assert(sanitized(s.drop_last()).push(s.last()) =~= s);
    }
}

/// Sanitizing twice is the same as sanitizing once: the first pass already
/// left nothing to remove.
pub proof fn lemma_sanitized_idempotent(s: Seq<char>)
    ensures
        sanitized(sanitized(s)) == sanitized(s),
{
    lemma_sanitized_clean(s);
    lemma_sanitized_identity(sanitized(s));
}

/// Relies on str::chars: it yields exactly the characters of the string,
/// in order.
#[verifier::external_body]
fn chars_of(s: &str) -> (r: Vec<char>)
    ensures
        r@ == s@,
{
    s.chars().collect()
}

/// Relies on String::push: it appends the given character to the end of the
/// string and changes nothing else.
#[verifier::external_body]
fn push_char(s: &mut String, c: char)
    ensures
        final(s)@ == old(s)@.push(c),
{
    s.push(c);
}

fn reserved_char(c: char) -> (r: bool)
    ensures
        r == is_reserved_char(c),
{
    c == '/' || c == '\\' || c == ':' || c == '<' || c == '>' || c == '"' || c == '|' || c == '?'
        || c == '*' || c == '.'
}

/// What a listener sees of a [`Song`]: its title, where its file lies, and
/// how long it is.
pub struct SongData {
    pub title: Seq<char>,
    pub path: Seq<char>,
    pub duration_ms: u64,
}

/// One finished recording: a track title, the capture file that holds it,
/// and its duration in milliseconds.
#[derive(Debug)]
pub struct Song {
    pub title: String,
    pub path: String,
    pub duration_ms: u64,
}

impl View for Song {
    type V = SongData;

    open spec fn view(&self) -> SongData {
        SongData { title: self.title@, path: self.path@, duration_ms: self.duration_ms }
    }
}

impl Song {
    pub fn new(title: &str, path: String, duration_ms: u64) -> (s: Song)
        ensures
            s@.title == title@,
            s@.path == path@,
            s@.duration_ms == duration_ms,
    {
        Song { title: title.to_owned(), path, duration_ms }
    }

    /// An exact copy.
    pub fn duplicate(&self) -> (s: Song)
        ensures
            s@ == self@,
    {
        Song {
            title: self.title.clone(),
            path: self.path.clone(),
            duration_ms: self.duration_ms,
        }
    }

    /// Removes every reserved character from a title, so that the result is
    /// safe to use as a file name.
    pub fn simplify_title(t: String) -> (r: String)
        ensures
            r@ == sanitized(t@),
    {
        let chars = chars_of(t.as_str());
        let mut out = String::new();
        let mut i: usize = 0;
        while i < chars.len()
            invariant
                i <= chars.len(),
                chars@ == t@,
                out@ == sanitized(t@.take(i as int)),
            decreases chars.len() - i,
        {
            let c = chars[i];
            proof {
                assert(t@.take(i + 1 as int).drop_last() =~= t@.take(i as int));
                assert(t@.take(i + 1 as int).last() == t@[i as int]);
            }
            if !reserved_char(c) {
                push_char(&mut out, c);
            }
            i = i + 1;
        }
        proof {
            assert(t@.take(chars@.len() as int) =~= t@);
        }
        out
    }
}

/// The destination path for a segment of the given title inside the capture
/// directory: the sanitized title with the container's extension.
pub open spec fn path_spec(dir: Seq<char>, title: Seq<char>) -> Seq<char> {
    dir + seq!['/'] + sanitized(title) + seq!['.', 'o', 'g', 'g']
}

/// Builds the capture file path for a title: `dir`, a separator, the
/// sanitized title, and the `.ogg` extension.
pub fn song_path(dir: &str, title: &str) -> (p: String)
    ensures
        p@ == path_spec(dir@, title@),
{
    let mut p = dir.to_owned();
    p.append("/");
    let clean = Song::simplify_title(title.to_owned());
    p.append(clean.as_str());
    p.append(".ogg");
    proof {
        reveal_strlit("/");
        reveal_strlit(".ogg");
        assert(p@ =~= path_spec(dir@, title@));
    }
    p
}

impl PartialEq for Song {
    /// Songs compare by title alone.
    fn eq(&self, other: &Song) -> (r: bool) {
        self.title == other.title
    }
}

impl vstd::std_specs::cmp::PartialEqSpecImpl for Song {
    open spec fn obeys_eq_spec() -> bool {
        true
    }

    open spec fn eq_spec(&self, other: &Song) -> bool {
        self.title@ == other.title@
    }
}

} // verus!
