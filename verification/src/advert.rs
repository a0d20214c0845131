//! Parsing of the capability/reference advertisement that follows the
//! service announcement during the handshake.

use vstd::prelude::*;
use vstd::string::StrSliceExecFns;

use crate::service::Protocol;
use crate::text::{find_char, find_from, lines_of, split_lines, split_on_char, split_spec};

verus! {

/// The view of a vector of strings: its character sequences.
pub open spec fn views_of(v: Seq<String>) -> Seq<Seq<char>> {
    v.map_values(|s: String| s@)
}

/// The capabilities advertised by the given lines. Under the modern wire
/// version every line is one capability; under the legacy version the
/// capabilities hide behind the NUL byte of the first reference line,
/// separated by spaces.
pub open spec fn advert_caps(lines: Seq<Seq<char>>, version: Protocol) -> Seq<Seq<char>> {
    match version {
        Protocol::V2 => lines,
        Protocol::V1 => {
            if lines.len() == 0 {
                Seq::empty()
            } else {
                let first = lines[0];
                let i = find_from(first, '\0', 0);
                if 0 <= i < first.len() {
                    split_spec(first.skip(i + 1), ' ')
                } else {
                    Seq::empty()
                }
            }
        },
    }
}

/// The reference lines advertised by the given lines: present under the
/// legacy wire version (with the capability suffix stripped from the first
/// line), absent under the modern one, which defers listing references.
pub open spec fn advert_refs(lines: Seq<Seq<char>>, version: Protocol) -> Option<Seq<Seq<char>>> {
    match version {
        Protocol::V2 => None,
        Protocol::V1 => {
            if lines.len() == 0 {
                Some(Seq::empty())
            } else {
                let first = lines[0];
                let i = find_from(first, '\0', 0);
                let head = if 0 <= i < first.len() {
                    first.take(i)
                } else {
                    first
                };
                Some(seq![head] + lines.drop_first())
            }
        },
    }
}

/// Parses the advertisement section that follows the service announcement:
/// returns the advertised capabilities and, under the legacy wire version,
/// the raw reference lines.
pub fn parse_advertisement(section: &str, version: Protocol) -> (r: (Vec<String>, Option<
    Vec<String>,
>))
    ensures
        views_of(r.0@) == advert_caps(lines_of(section@), version),
        r.1 is None <==> advert_refs(lines_of(section@), version) is None,
        r.1 matches Some(refs) ==> advert_refs(lines_of(section@), version) == Some(
            views_of(refs@),
        ),
{
    let lines = split_lines(section);
    match version {
        Protocol::V2 => {
            proof {
                assert(views_of(lines@) =~= lines_of(section@));
            }
            (lines, None)
        },
        Protocol::V1 => {
            if lines.len() == 0 {
                let caps: Vec<String> = Vec::new();
                let refs: Vec<String> = Vec::new();
                proof {
                    assert(views_of(caps@) =~= Seq::<Seq<char>>::empty());
                    assert(views_of(refs@) =~= Seq::<Seq<char>>::empty());
                }
                (caps, Some(refs))
            } else {
                let first = lines[0].clone();
                let len0 = first.as_str().unicode_len();
                let i = find_char(first.as_str(), '\0');
                let mut refs: Vec<String> = Vec::new();
                let caps: Vec<String>;
                if i < len0 {
                    refs.push(first.as_str().substring_char(0, i).to_owned());
                    let cap_text = first.as_str().substring_char(i + 1, len0);
                    proof {
                        assert(first@.skip(i + 1) =~= first@.subrange(i + 1, len0 as int));
                        assert(first@.take(i as int) =~= first@.subrange(0, i as int));
                    }
                    caps = split_on_char(cap_text, ' ');
                } else {
                    refs.push(first);
                    caps = Vec::new();
                    proof {
                        assert(views_of(caps@) =~= Seq::<Seq<char>>::empty());
                    }
                }
                let mut k: usize = 1;
                while k < lines.len()
                    invariant
                        1 <= k <= lines.len(),
                        refs@.len() == k,
                        forall|m: int| 1 <= m < k ==> refs@[m]@ == lines@[m]@,
                        refs@[0]@ == ({
                            let f = lines@[0]@;
                            let i0 = find_from(f, '\0', 0);
                            if 0 <= i0 < f.len() {
                                f.take(i0)
                            } else {
                                f
                            }
                        }),
                    decreases lines.len() - k,
                {
                    refs.push(lines[k].clone());
                    k = k + 1;
                }
                proof {
                    let spec_lines = lines_of(section@);
                    assert(views_of(refs@) =~= seq![advert_refs(spec_lines, Protocol::V1)->Some_0[0]]
                        + spec_lines.drop_first());
                    assert(views_of(caps@) =~= advert_caps(spec_lines, Protocol::V1));
                }
                (caps, Some(refs))
            }
        },
    }
}

} // verus!
