//! The delivery selector: extracts a path's final dot-delimited suffix,
//! case-normalized, and picks one of the two delivery strategies by it.

use vstd::prelude::*;
use vstd::string::StrSliceExecFns;
use vstd::string::StringExecFns;

use crate::text::{is_ascii_alnum, is_ascii_alnum_char, lower_char, push_char, to_lower_char};

verus! {

/// Length of the longest all-alphanumeric suffix of `p`.
pub open spec fn trailing_alnum_len(p: Seq<char>) -> int
    decreases p.len(),
{
    if p.len() == 0 || !is_ascii_alnum(p.last()) {
        0
    } else {
        1 + trailing_alnum_len(p.drop_last())
    }
}

/// Each character lowercased.
pub open spec fn lower_seq(s: Seq<char>) -> Seq<char> {
    s.map_values(|c: char| lower_char(c))
}

/// The extension of a path: its final dot-delimited suffix, lowercased.
/// It exists exactly when the path ends in a non-empty alphanumeric run
/// directly preceded by a dot.
pub open spec fn extension_spec(p: Seq<char>) -> Option<Seq<char>> {
    let m = trailing_alnum_len(p);
    if m > 0 && m + 1 <= p.len() && p[p.len() - m - 1] == '.' {
        Some(lower_seq(p.skip(p.len() - m)))
    } else {
        None
    }
}

/// The trailing alphanumeric run never reaches past the sequence.
proof fn lemma_trailing_alnum_bounds(p: Seq<char>)
    ensures
        0 <= trailing_alnum_len(p) <= p.len(),
    decreases p.len(),
{
    if p.len() > 0 && is_ascii_alnum(p.last()) {
        lemma_trailing_alnum_bounds(p.drop_last());
    }
}

/// Characters that agree after lowercasing classify alike: both are
/// alphanumeric or neither is, and one is the dot exactly when the
/// other is.
proof fn lemma_lower_char_classes(a: char, b: char)
    requires
        lower_char(a) == lower_char(b),
    ensures
        is_ascii_alnum(a) == is_ascii_alnum(b),
        (a == '.') == (b == '.'),
{
}

/// Paths that agree up to letter case have trailing alphanumeric runs
/// of the same length.
proof fn lemma_trailing_alnum_case(p1: Seq<char>, p2: Seq<char>)
    requires
        p1.len() == p2.len(),
        forall|i: int| 0 <= i < p1.len() ==> lower_char(p1[i]) == lower_char(p2[i]),
    ensures
        trailing_alnum_len(p1) == trailing_alnum_len(p2),
    decreases p1.len(),
{
    if p1.len() > 0 {
        lemma_lower_char_classes(p1.last(), p2.last());
        if is_ascii_alnum(p1.last()) {
            lemma_trailing_alnum_case(p1.drop_last(), p2.drop_last());
        }
    }
}

/// Extension extraction is case-insensitive: two paths that agree up to
/// letter case have the same extension.
pub proof fn lemma_extension_case_insensitive(p1: Seq<char>, p2: Seq<char>)
    requires
        p1.len() == p2.len(),
        forall|i: int| 0 <= i < p1.len() ==> lower_char(p1[i]) == lower_char(p2[i]),
    ensures
        extension_spec(p1) == extension_spec(p2),
{
    lemma_trailing_alnum_case(p1, p2);
    lemma_trailing_alnum_bounds(p1);
    let n = p1.len() as int;
    let m = trailing_alnum_len(p1);
    if m > 0 && m + 1 <= n {
        lemma_lower_char_classes(p1[n - m - 1], p2[n - m - 1]);
    }
    if m > 0 && m + 1 <= n && p1[n - m - 1] == '.' {
        assert(lower_seq(p1.skip(n - m)) =~= lower_seq(p2.skip(n - m)));
    }
}

/// The trailing alphanumeric run has length `m` when the last `m`
/// characters are alphanumeric and the one before them (when there is
/// one) is not.
proof fn lemma_trailing_alnum(p: Seq<char>, m: int)
    requires
        0 <= m <= p.len(),
        forall|k: int| p.len() - m <= k < p.len() ==> is_ascii_alnum(p[k]),
        m < p.len() ==> !is_ascii_alnum(p[p.len() - m - 1]),
    ensures
        trailing_alnum_len(p) == m,
    decreases p.len(),
{
    if p.len() > 0 && m > 0 {
        let t = p.drop_last();
        assert(is_ascii_alnum(p.last()));
        assert(forall|k: int| t.len() - (m - 1) <= k < t.len() ==> is_ascii_alnum(t[k]));
        lemma_trailing_alnum(t, m - 1);
    }
}

/// Extracts the lowercased extension of `path`, when it has one.
pub fn get_file_extension(path: &str) -> (r: Option<String>)
    ensures
        r is Some <==> extension_spec(path@) is Some,
        r matches Some(e) ==> Some(e@) == extension_spec(path@),
{
    let n = path.unicode_len();
    let mut m: usize = 0;
    while m < n && is_ascii_alnum_char(path.get_char(n - m - 1))
        invariant
            m <= n,
            n == path@.len(),
            forall|k: int| n - m <= k < n ==> is_ascii_alnum(path@[k]),
        decreases n - m,
    {
        m = m + 1;
    }
    proof {
        lemma_trailing_alnum(path@, m as int);
    }
    if m > 0 && m < n && path.get_char(n - m - 1) == '.' {
        let mut out = String::new();
        let mut k: usize = n - m;
        proof {
            assert(path@.subrange(n - m, n - m) =~= Seq::<char>::empty());
            assert(lower_seq(path@.subrange(n - m, n - m)) =~= Seq::<char>::empty());
        }
        while k < n
            invariant
                n - m <= k <= n,
                n == path@.len(),
                m <= n,
                out@ == lower_seq(path@.subrange(n - m, k as int)),
            decreases n - k,
        {
            let c = path.get_char(k);
            push_char(&mut out, to_lower_char(c));
            proof {
                assert(path@.subrange(n - m, k + 1) =~= path@.subrange(n - m, k as int).push(
                    path@[k as int],
                ));
                assert(lower_seq(path@.subrange(n - m, k + 1)) =~= lower_seq(
                    path@.subrange(n - m, k as int),
                ).push(lower_char(path@[k as int])));
            }
            k = k + 1;
        }
        proof {
            assert(path@.subrange(n - m, n as int) =~= path@.skip(n - m));
        }
        Some(out)
    } else {
        None
    }
}

/// The two delivery strategies.
#[derive(Clone, Copy, Debug, PartialEq, Eq, Structural)]
pub enum Delivery {
    /// Stream the raw bytes through the spool protocol.
    RawSpool,
    /// Hand the file to the external PDF converter.
    ExternalConverter,
}

/// The one extension that routes through the external converter.
pub open spec fn pdf_ext() -> Seq<char> {
    seq!['p', 'd', 'f']
}

/// Picks the delivery strategy for a path: a `"pdf"` extension, matched
/// case-insensitively, selects the external converter; every other path,
/// one without an extension included, selects the raw spool writer.
pub fn select_delivery(path: &str) -> (d: Delivery)
    ensures
        d is ExternalConverter <==> extension_spec(path@) == Some(pdf_ext()),
{
    match get_file_extension(path) {
        Some(e) => {
            let pdf = String::from_str("pdf");
            proof {
                reveal_strlit("pdf");
                assert(pdf@ =~= pdf_ext());
            }
            if e == pdf {
                Delivery::ExternalConverter
            } else {
                Delivery::RawSpool
            }
        },
        None => Delivery::RawSpool,
    }
}

} // verus!
