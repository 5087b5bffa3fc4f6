//! The decisions of `bench`: which runners to compare, and where their programs live.

use vstd::prelude::*;

use crate::text::{chars_of, string_from, trim_chars, trimmed};

verus! {

broadcast use vstd::string::group_string_axioms;

/// The pieces of `s` between commas, in order.
pub open spec fn comma_pieces(s: Seq<char>) -> Seq<Seq<char>>
    decreases s.len(),
{
    match crate::text::first_index(s, ',') {
        Option::Some(i) => {
            proof { crate::text::lemma_first_index(s, ','); }
            seq![s.take(i)] + comma_pieces(s.skip(i + 1))
        },
        Option::None => seq![s],
    }
}

/// The runner names of a `--compare` value: its comma-separated pieces, trimmed.
pub open spec fn runner_names(compare: Seq<char>) -> Seq<Seq<char>> {
    comma_pieces(compare).map_values(|p: Seq<char>| trimmed(p))
}

/// The runners named in a `--compare` value such as `cpython,celer`.
pub fn parse_runners(compare: &str) -> (r: Vec<String>)
    ensures
        crate::adapter::route::views(r@) == runner_names(compare@),
{
    let v = chars_of(compare);
    let mut out: Vec<String> = Vec::new();
    let mut start: usize = 0;
    let mut i: usize = 0;
    let ghost mut done: Seq<Seq<char>> = Seq::empty();
    assert(v@.skip(0) =~= v@);
    assert(done + comma_pieces(v@.skip(0)) =~= comma_pieces(v@));
    while i < v.len()
        invariant
            v@ == compare@,
            start <= i <= v@.len(),
            forall|j: int| start <= j < i ==> v@[j] != ',',
            comma_pieces(v@) == done + comma_pieces(v@.skip(start as int)),
            crate::adapter::route::views(out@) == done.map_values(|p: Seq<char>| trimmed(p)),
        decreases v@.len() - i,
    {
        if v[i] == ',' {
            let ghost rest = v@.skip(start as int);
            proof {
                crate::text::lemma_first_index(rest, ',');
                assert(rest[i - start] == ',');
                assert forall|j: int| 0 <= j < i - start implies rest[j] != ',' by {
                    assert(rest[j] == v@[start + j]);
                }
                lemma_first_comma(rest, (i - start) as int);
                assert(rest.take(i - start) =~= v@.subrange(start as int, i as int));
                assert(rest.skip(i - start + 1) =~= v@.skip(i + 1));
            }
            let piece = trim_chars(crate::text::sub_chars(v.as_slice(), start, i).as_slice());
            let ghost before = crate::adapter::route::views(out@);
            out.push(string_from(piece.as_slice()));
            proof {
                assert(crate::adapter::route::views(out@) =~= before.push(trimmed(v@.subrange(start as int, i as int))));
                assert(done.push(v@.subrange(start as int, i as int)).map_values(|p: Seq<char>| trimmed(p)) =~= done.map_values(
                    |p: Seq<char>| trimmed(p),
                ).push(trimmed(v@.subrange(start as int, i as int))));
                assert(seq![rest.take(i - start)] + comma_pieces(rest.skip(i - start + 1)) =~= seq![v@.subrange(start as int, i as int)] + comma_pieces(v@.skip(i + 1)));
                assert(done + (seq![v@.subrange(start as int, i as int)] + comma_pieces(v@.skip(i + 1))) =~= done.push(v@.subrange(start as int, i as int)) + comma_pieces(v@.skip(i + 1)));
                done = done.push(v@.subrange(start as int, i as int));
            }
            start = i + 1;
        }
        i = i + 1;
    }
    let ghost rest = v@.skip(start as int);
    proof {
        crate::text::lemma_first_index(rest, ',');
        assert forall|j: int| 0 <= j < rest.len() implies rest[j] != ',' by {
            assert(rest[j] == v@[start + j]);
        }
        lemma_no_comma(rest);
        assert(rest =~= v@.subrange(start as int, v@.len() as int));
    }
    let piece = trim_chars(crate::text::sub_chars(v.as_slice(), start, v.len()).as_slice());
    let ghost before = crate::adapter::route::views(out@);
    out.push(string_from(piece.as_slice()));
    proof {
        assert(crate::adapter::route::views(out@) =~= before.push(trimmed(rest)));
        assert((done + seq![rest]).map_values(|p: Seq<char>| trimmed(p)) =~= done.map_values(|p: Seq<char>| trimmed(p)).push(
            trimmed(rest),
        ));
    }
    out
}

/// The first comma of `s` is at `i` when `s[i]` is one and none comes before it.
proof fn lemma_first_comma(s: Seq<char>, i: int)
    requires
        0 <= i < s.len(),
        s[i] == ',',
        forall|j: int| 0 <= j < i ==> s[j] != ',',
    ensures
        crate::text::first_index(s, ',') == Option::Some(i),
    decreases i,
{
    if i > 0 {
        lemma_first_comma(s.drop_first(), i - 1);
    }
}

/// A sequence without a comma has no first comma.
proof fn lemma_no_comma(s: Seq<char>)
    requires
        forall|j: int| 0 <= j < s.len() ==> s[j] != ',',
    ensures
        crate::text::first_index(s, ',') is None,
    decreases s.len(),
{
    if s.len() > 0 {
        lemma_no_comma(s.drop_first());
    }
}

/// `name` with every `-` replaced by `_`.
pub open spec fn underscored(name: Seq<char>) -> Seq<char> {
    name.map_values(|c: char| if c == '-' { '_' } else { c })
}

/// The name of the program that runs a workload in another language: the workload name with
/// `-` replaced by `_`.
pub fn binary_name(workload_name: &str) -> (r: String)
    ensures
        r@ == underscored(workload_name@),
{
    let v = chars_of(workload_name);
    let mut out: Vec<char> = Vec::new();
    let mut i: usize = 0;
    while i < v.len()
        invariant
            v@ == workload_name@,
            i <= v@.len(),
            out@ == underscored(v@.take(i as int)),
        decreases v@.len() - i,
    {
        out.push(if v[i] == '-' { '_' } else { v[i] });
        assert(underscored(v@.take(i + 1)) =~= underscored(v@.take(i as int)).push(if v@[i as int] == '-' { '_' } else { v@[i as int] }));
        i = i + 1;
    }
    assert(v@.take(v@.len() as int) =~= v@);
    string_from(out.as_slice())
}

/// The path of the Go program of a workload.
pub fn go_binary_path(binary: &str) -> (r: String)
    ensures
        r@ == "benches/go/cmd/"@ + binary@ + "/"@ + binary@,
{
    let mut p = "benches/go/cmd/".to_string();
    p.append(binary);
    p.append("/");
    p.append(binary);
    p
}

/// The path of the Rust program of a workload.
pub fn rust_binary_path(binary: &str) -> (r: String)
    ensures
        r@ == "benches/rust/target/release/"@ + binary@,
{
    let mut p = "benches/rust/target/release/".to_string();
    p.append(binary);
    p
}

} // verus!
