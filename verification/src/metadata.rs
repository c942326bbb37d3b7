//! The optional single-line document-metadata statement, built from a
//! fixed, ordered set of recognized fields: title, author, description,
//! keywords (split on commas, each segment trimmed and quoted), and date
//! (only the literal tokens `auto` and `none`, case-insensitively, are
//! recognized; any other date text contributes nothing). Unrecognized
//! fields are ignored; string values are quoted with quotes escaped.

use vstd::prelude::*;

use crate::text::{
    chars_to_string, copy_range, escape_quotes_chars, spec_escape_quotes, string_chars,
};

verus! {

/// The element-wise view of the metadata pairs.
pub open spec fn spec_mpairs_view(ps: Seq<(String, String)>) -> Seq<(Seq<char>, Seq<char>)> {
    Seq::new(ps.len(), |i: int| (ps[i].0@, ps[i].1@))
}

/// The value of the first pair whose key is `key`, starting at `i`.
pub open spec fn spec_meta_first(
    pairs: Seq<(Seq<char>, Seq<char>)>,
    key: Seq<char>,
    i: int,
) -> Option<Seq<char>>
    decreases pairs.len() - i,
{
    if i < 0 || i >= pairs.len() {
        None
    } else if pairs[i].0 == key {
        Some(pairs[i].1)
    } else {
        spec_meta_first(pairs, key, i + 1)
    }
}

/// The value of the first pair whose key is `key`.
pub open spec fn spec_meta_lookup(
    pairs: Seq<(Seq<char>, Seq<char>)>,
    key: Seq<char>,
) -> Option<Seq<char>> {
    spec_meta_first(pairs, key, 0)
}

/// An ASCII capital letter folded to its lower-case form; anything else
/// stands as it is.
pub open spec fn spec_ascii_lower(c: char) -> char {
    if 'A' <= c && c <= 'Z' {
        ((c as u8) + 32) as char
    } else {
        c
    }
}

/// Equality up to ASCII case.
pub open spec fn spec_eq_ignore_case(s: Seq<char>, t: Seq<char>) -> bool {
    s.len() == t.len() && (forall|i: int|
        0 <= i < s.len() ==> spec_ascii_lower(s[i]) == spec_ascii_lower(t[i]))
}

/// Whether `c` is ASCII whitespace, for trimming keyword segments.
pub open spec fn spec_is_space(c: char) -> bool {
    c == ' ' || c == '\t' || c == '\n' || c == '\r'
}

/// The sequence without its leading whitespace.
pub open spec fn spec_trim_start(s: Seq<char>) -> Seq<char>
    decreases s.len(),
{
    if s.len() > 0 && spec_is_space(s[0]) {
        spec_trim_start(s.drop_first())
    } else {
        s
    }
}

/// The sequence without its trailing whitespace.
pub open spec fn spec_trim_end(s: Seq<char>) -> Seq<char>
    decreases s.len(),
{
    if s.len() > 0 && spec_is_space(s.last()) {
        spec_trim_end(s.drop_last())
    } else {
        s
    }
}

/// The sequence without leading or trailing whitespace.
pub open spec fn spec_trim(s: Seq<char>) -> Seq<char> {
    spec_trim_end(spec_trim_start(s))
}

/// The comma-separated segments of `s`, scanning from `i` with the current
/// segment opened at `start`. Splitting the empty text yields one empty
/// segment.
pub open spec fn spec_split_commas(s: Seq<char>, start: int, i: int) -> Seq<Seq<char>>
    recommends
        0 <= start <= i <= s.len(),
    decreases s.len() - i,
{
    if i < 0 || i >= s.len() {
        seq![s.subrange(start, s.len() as int)]
    } else if s[i] == ',' {
        seq![s.subrange(start, i)] + spec_split_commas(s, i + 1, i + 1)
    } else {
        spec_split_commas(s, start, i + 1)
    }
}

/// One keyword segment, trimmed, escaped and double-quoted.
pub open spec fn spec_quoted_segment(seg: Seq<char>) -> Seq<char> {
    seq!['"'] + spec_escape_quotes(spec_trim(seg)) + seq!['"']
}

/// The first `k` quoted keyword segments, joined with a comma and space.
pub open spec fn spec_keywords_join(segs: Seq<Seq<char>>, k: int) -> Seq<char>
    decreases k,
{
    if k <= 0 || k > segs.len() {
        Seq::empty()
    } else if k == 1 {
        spec_quoted_segment(segs[0])
    } else {
        spec_keywords_join(segs, k - 1) + ", "@ + spec_quoted_segment(segs[k - 1])
    }
}

/// The `title` part of the statement, when the field is present.
pub open spec fn spec_title_part(m: Seq<(Seq<char>, Seq<char>)>) -> Option<Seq<char>> {
    match spec_meta_lookup(m, "title"@) {
        Some(v) => Some("title"@ + ": \""@ + spec_escape_quotes(v) + "\""@),
        None => None,
    }
}

/// The `author` part of the statement, when the field is present.
pub open spec fn spec_author_part(m: Seq<(Seq<char>, Seq<char>)>) -> Option<Seq<char>> {
    match spec_meta_lookup(m, "author"@) {
        Some(v) => Some("author"@ + ": \""@ + spec_escape_quotes(v) + "\""@),
        None => None,
    }
}

/// The `description` part of the statement, when the field is present.
pub open spec fn spec_description_part(m: Seq<(Seq<char>, Seq<char>)>) -> Option<Seq<char>> {
    match spec_meta_lookup(m, "description"@) {
        Some(v) => Some("description"@ + ": \""@ + spec_escape_quotes(v) + "\""@),
        None => None,
    }
}

/// The `keywords` part: the value split on commas, each segment trimmed,
/// escaped and quoted, the segments parenthesized.
pub open spec fn spec_keywords_part(m: Seq<(Seq<char>, Seq<char>)>) -> Option<Seq<char>> {
    match spec_meta_lookup(m, "keywords"@) {
        Some(v) => {
            let segs = spec_split_commas(v, 0, 0);
            Some("keywords: ("@ + spec_keywords_join(segs, segs.len() as int) + ")"@)
        },
        None => None,
    }
}

/// The `date` part: only the literal tokens `auto` and `none` are
/// recognized, case-insensitively; any other date text contributes nothing.
pub open spec fn spec_date_part(m: Seq<(Seq<char>, Seq<char>)>) -> Option<Seq<char>> {
    match spec_meta_lookup(m, "date"@) {
        Some(v) => {
            if spec_eq_ignore_case(v, "auto"@) {
                Some("date: auto"@)
            } else if spec_eq_ignore_case(v, "none"@) {
                Some("date: none"@)
            } else {
                None
            }
        },
        None => None,
    }
}

/// A present part as a one-element sequence, an absent one as nothing.
pub open spec fn spec_opt_part(p: Option<Seq<char>>) -> Seq<Seq<char>> {
    match p {
        Some(s) => seq![s],
        None => Seq::empty(),
    }
}

/// The recognized parts, in their fixed order.
pub open spec fn spec_meta_parts(m: Seq<(Seq<char>, Seq<char>)>) -> Seq<Seq<char>> {
    spec_opt_part(spec_title_part(m)) + spec_opt_part(spec_author_part(m)) + spec_opt_part(
        spec_description_part(m),
    ) + spec_opt_part(spec_keywords_part(m)) + spec_opt_part(spec_date_part(m))
}

/// The first `k` parts, joined with a comma and space.
pub open spec fn spec_join_parts(parts: Seq<Seq<char>>, k: int) -> Seq<char>
    decreases k,
{
    if k <= 0 || k > parts.len() {
        Seq::empty()
    } else if k == 1 {
        parts[0]
    } else {
        spec_join_parts(parts, k - 1) + ", "@ + parts[k - 1]
    }
}

/// The whole metadata statement: empty input or no recognized part
/// contributes nothing (no stray blank statement); otherwise one set-document
/// line ending in a newline.
pub open spec fn spec_document_metadata(m: Seq<(Seq<char>, Seq<char>)>) -> Seq<char> {
    if m.len() == 0 {
        Seq::empty()
    } else {
        let parts = spec_meta_parts(m);
        if parts.len() == 0 {
            Seq::empty()
        } else {
            "#set document("@ + spec_join_parts(parts, parts.len() as int) + ")\n"@
        }
    }
}

fn is_space(c: char) -> (r: bool)
    ensures
        r == spec_is_space(c),
{
    c == ' ' || c == '\t' || c == '\n' || c == '\r'
}

/// The segment without leading or trailing ASCII whitespace.
#[verifier::loop_isolation(false)]
fn trim_chars(s: &Vec<char>) -> (r: Vec<char>)
    ensures
        r@ == spec_trim(s@),
{
    let mut start: usize = 0;
    proof {
        assert(s@.subrange(0, s@.len() as int) =~= s@);
    }
    while start < s.len() && is_space(s[start])
        invariant
            start <= s@.len(),
            spec_trim_start(s@) == spec_trim_start(s@.subrange(start as int, s@.len() as int)),
        decreases s@.len() - start,
    {
        proof {
            assert(s@.subrange(start as int, s@.len() as int).drop_first() =~= s@.subrange(
                start + 1 as int,
                s@.len() as int,
            ));
        }
        start = start + 1;
    }
    proof {
        assert(spec_trim_start(s@) =~= s@.subrange(start as int, s@.len() as int));
    }
    let mut end: usize = s.len();
    while end > start && is_space(s[end - 1])
        invariant
            start <= end <= s@.len(),
            spec_trim_end(s@.subrange(start as int, s@.len() as int)) == spec_trim_end(
                s@.subrange(start as int, end as int),
            ),
        decreases end,
    {
        proof {
            assert(s@.subrange(start as int, end as int).drop_last() =~= s@.subrange(
                start as int,
                end - 1 as int,
            ));
        }
        end = end - 1;
    }
    proof {
        assert(spec_trim_end(s@.subrange(start as int, end as int)) =~= s@.subrange(
            start as int,
            end as int,
        ));
    }
    copy_range(s, start, end)
}

/// The element-wise view of a vector of segments.
pub open spec fn spec_segs_view(vs: Seq<Vec<char>>) -> Seq<Seq<char>> {
    Seq::new(vs.len(), |i: int| vs[i]@)
}

/// The comma-separated segments of `s`.
#[verifier::loop_isolation(false)]
fn split_commas(s: &Vec<char>) -> (r: Vec<Vec<char>>)
    ensures
        spec_segs_view(r@) == spec_split_commas(s@, 0, 0),
{
    let mut done: Vec<Vec<char>> = Vec::new();
    let mut seg_start: usize = 0;
    let mut i: usize = 0;
    proof {
        assert(spec_segs_view(done@) =~= Seq::<Seq<char>>::empty());
    }
    while i < s.len()
        invariant
            seg_start <= i <= s@.len(),
            spec_split_commas(s@, 0, 0) == spec_segs_view(done@) + spec_split_commas(
                s@,
                seg_start as int,
                i as int,
            ),
        decreases s@.len() - i,
    {
        let ghost prev = done@;
        if s[i] == ',' {
            let seg = copy_range(s, seg_start, i);
            done.push(seg);
            proof {
                assert(spec_segs_view(done@) =~= spec_segs_view(prev).push(
                    s@.subrange(seg_start as int, i as int),
                ));
                assert(spec_segs_view(prev) + spec_split_commas(s@, seg_start as int, i as int)
                    =~= spec_segs_view(done@) + spec_split_commas(s@, i + 1 as int, i + 1 as int));
            }
            seg_start = i + 1;
        }
        i = i + 1;
    }
    let seg = copy_range(s, seg_start, s.len());
    let ghost prev = done@;
    done.push(seg);
    proof {
        assert(spec_segs_view(done@) =~= spec_segs_view(prev).push(
            s@.subrange(seg_start as int, s@.len() as int),
        ));
        assert(spec_segs_view(prev) + spec_split_commas(s@, seg_start as int, s@.len() as int)
            =~= spec_segs_view(done@));
    }
    done
}

/// Equality up to ASCII case.
fn eq_ignore_ascii(a: &Vec<char>, b: &Vec<char>) -> (r: bool)
    ensures
        r == spec_eq_ignore_case(a@, b@),
{
    if a.len() != b.len() {
        return false;
    }
    let mut i: usize = 0;
    while i < a.len()
        invariant
            i <= a@.len(),
            a@.len() == b@.len(),
            forall|j: int| 0 <= j < i ==> spec_ascii_lower(a@[j]) == spec_ascii_lower(b@[j]),
        decreases a@.len() - i,
    {
        let ca = lower_char(a[i]);
        let cb = lower_char(b[i]);
        if ca != cb {
            return false;
        }
        i = i + 1;
    }
    true
}

fn lower_char(c: char) -> (r: char)
    ensures
        r == spec_ascii_lower(c),
{
    let u = c as u32;
    if 65 <= u && u <= 90 {
        ((c as u8) + 32) as char
    } else {
        c
    }
}

/// The value of the first metadata pair whose key is `key`.
#[verifier::loop_isolation(false)]
fn meta_lookup<'a>(pairs: &'a Vec<(String, String)>, key: &str) -> (r: Option<&'a String>)
    ensures
        (match r {
            Some(v) => spec_meta_lookup(spec_mpairs_view(pairs@), key@) == Some(v@),
            None => spec_meta_lookup(spec_mpairs_view(pairs@), key@) is None,
        }),
{
    let ghost pv = spec_mpairs_view(pairs@);
    let k = key.to_owned();
    let mut i: usize = 0;
    while i < pairs.len()
        invariant
            i <= pairs@.len(),
            spec_meta_first(pv, key@, 0) == spec_meta_first(pv, key@, i as int),
        decreases pairs@.len() - i,
    {
        if pairs[i].0 == k {
            proof {
                assert(pv[i as int].0 == key@);
            }
            return Some(&pairs[i].1);
        }
        proof {
            assert(pv[i as int].0 != key@);
        }
        i = i + 1;
    }
    None
}

/// A quoted-field part, such as `title: "..."` with quotes escaped.
fn quoted_field_part(name: &str, v: &String) -> (r: Vec<char>)
    ensures
        r@ == name@ + ": \""@ + spec_escape_quotes(v@) + "\""@,
{
    let mut out = string_chars(name);
    let mut colon = string_chars(": \"");
    out.append(&mut colon);
    let cs = string_chars(v.as_str());
    let mut esc = escape_quotes_chars(&cs);
    out.append(&mut esc);
    out.push('"');
    proof {
        reveal_strlit("\"");
        assert("\""@ =~= seq!['"']);
        assert(out@ =~= name@ + ": \""@ + spec_escape_quotes(v@) + "\""@);
    }
    out
}

/// Generates the set-document statement from the metadata fields, or the
/// empty string when nothing is recognized.
#[verifier::loop_isolation(false)]
#[verifier::rlimit(100)]
pub fn generate_document_metadata(metadata: &Vec<(String, String)>) -> (r: String)
    ensures
        r@ == spec_document_metadata(spec_mpairs_view(metadata@)),
{
    let ghost mv = spec_mpairs_view(metadata@);
    if metadata.len() == 0 {
        return String::new();
    }
    let mut parts: Vec<Vec<char>> = Vec::new();
    match meta_lookup(metadata, "title") {
        Some(v) => {
            parts.push(quoted_field_part("title", v));
        },
        None => {},
    }
    proof {
        assert(spec_segs_view(parts@) =~= spec_opt_part(spec_title_part(mv)));
    }
    match meta_lookup(metadata, "author") {
        Some(v) => {
            parts.push(quoted_field_part("author", v));
        },
        None => {},
    }
    proof {
        assert(spec_segs_view(parts@) =~= spec_opt_part(spec_title_part(mv)) + spec_opt_part(
            spec_author_part(mv),
        ));
    }
    match meta_lookup(metadata, "description") {
        Some(v) => {
            parts.push(quoted_field_part("description", v));
        },
        None => {},
    }
    proof {
        assert(spec_segs_view(parts@) =~= spec_opt_part(spec_title_part(mv)) + spec_opt_part(
            spec_author_part(mv),
        ) + spec_opt_part(spec_description_part(mv)));
    }
    match meta_lookup(metadata, "keywords") {
        Some(v) => {
            let cs = string_chars(v.as_str());
            let segs = split_commas(&cs);
            let ghost segsv = spec_split_commas(v@, 0, 0);
            let mut out = string_chars("keywords: (");
            let mut j: usize = 0;
            while j < segs.len()
                invariant
                    j <= segs@.len(),
                    spec_segs_view(segs@) == segsv,
                    out@ == "keywords: ("@ + spec_keywords_join(segsv, j as int),
                decreases segs@.len() - j,
            {
                if j > 0 {
                    let mut sep = string_chars(", ");
                    out.append(&mut sep);
                }
                out.push('"');
                let trimmed = trim_chars(&segs[j]);
                let mut esc = escape_quotes_chars(&trimmed);
                out.append(&mut esc);
                out.push('"');
                proof {
                    assert(segsv[j as int] == segs@[j as int]@);
                }
                j = j + 1;
            }
            out.push(')');
            proof {
                reveal_strlit(")");
                assert(")"@ =~= seq![')']);
                assert(segsv.len() == segs@.len());
                assert(out@ =~= "keywords: ("@ + spec_keywords_join(segsv, segsv.len() as int)
                    + ")"@);
            }
            parts.push(out);
        },
        None => {},
    }
    proof {
        assert(spec_segs_view(parts@) =~= spec_opt_part(spec_title_part(mv)) + spec_opt_part(
            spec_author_part(mv),
        ) + spec_opt_part(spec_description_part(mv)) + spec_opt_part(spec_keywords_part(mv)));
    }
    match meta_lookup(metadata, "date") {
        Some(v) => {
            let vcs = string_chars(v.as_str());
            let auto_cs = string_chars("auto");
            let none_cs = string_chars("none");
            if eq_ignore_ascii(&vcs, &auto_cs) {
                parts.push(string_chars("date: auto"));
            } else if eq_ignore_ascii(&vcs, &none_cs) {
                parts.push(string_chars("date: none"));
            }
        },
        None => {},
    }
    proof {
        assert(spec_segs_view(parts@) =~= spec_meta_parts(mv));
    }
    if parts.len() == 0 {
        return String::new();
    }
    let mut out = string_chars("#set document(");
    let mut j: usize = 0;
    while j < parts.len()
        invariant
            j <= parts@.len(),
            spec_segs_view(parts@) == spec_meta_parts(mv),
            out@ == "#set document("@ + spec_join_parts(spec_meta_parts(mv), j as int),
        decreases parts@.len() - j,
    {
        if j > 0 {
            let mut sep = string_chars(", ");
            out.append(&mut sep);
        }
        let mut p = string_chars("");
        p = copy_range(&parts[j], 0, parts[j].len());
        out.append(&mut p);
        proof {
            assert(spec_meta_parts(mv)[j as int] == parts@[j as int]@);
            assert(parts@[j as int]@.subrange(0, parts@[j as int]@.len() as int) =~= parts@[
                j as int
            ]@);
        }
        j = j + 1;
    }
    let mut close = string_chars(")\n");
    out.append(&mut close);
    proof {
        assert(out@ =~= spec_document_metadata(mv));
    }
    chars_to_string(&out)
}

} // verus!
