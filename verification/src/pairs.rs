//! Channel-to-lambda pairs and the `channel=lambda` notation for them.

use vstd::prelude::*;
use vstd::std_specs::iter::IteratorSpec;
use crate::error::{ConfigError, ConfigErrorView};
use crate::text::{count_of, first_index_of, lemma_first_index_bounds, lemma_first_index_push};

verus! {

/// One subscription and where its messages go.
#[derive(Debug, Clone)]
pub struct ChannelLambdaPair {
    pub channel: String,
    pub lambda: String,
}

/// The mathematical content of a [`ChannelLambdaPair`].
pub struct PairView {
    pub channel: Seq<char>,
    pub lambda: Seq<char>,
}

impl View for ChannelLambdaPair {
    type V = PairView;

    open spec fn view(&self) -> PairView {
        PairView { channel: self.channel@, lambda: self.lambda@ }
    }
}

/// An entry is a pair exactly when it holds one `=`.
pub open spec fn is_pair_text(entry: Seq<char>) -> bool {
    count_of(entry, '=') == 1
}

/// The pair that an entry denotes: what stands before its `=`, and what stands after it.
pub open spec fn pair_of(entry: Seq<char>) -> PairView {
    let at = first_index_of(entry, '=');
    PairView { channel: entry.take(at), lambda: entry.skip(at + 1) }
}

/// Entry `k` is the first of `entries` that is no pair.
pub open spec fn is_first_invalid(entries: Seq<String>, k: int) -> bool {
    &&& 0 <= k < entries.len()
    &&& !is_pair_text(entries[k]@)
    &&& forall|j: int| 0 <= j < k ==> is_pair_text(#[trigger] entries[j]@)
}

/// Every entry is a pair.
pub open spec fn all_pairs(entries: Seq<String>) -> bool {
    forall|i: int| 0 <= i < entries.len() ==> is_pair_text(#[trigger] entries[i]@)
}

/// The first entry that is no pair, where there is one.
pub open spec fn first_invalid(entries: Seq<String>) -> int {
    choose|k: int| is_first_invalid(entries, k)
}

/// What a list of entries denotes: the pair of each entry, in order, or the
/// first entry that is no pair.
pub open spec fn parsed_pairs(entries: Seq<String>) -> Result<Seq<PairView>, ConfigErrorView> {
    if all_pairs(entries) {
        Ok(entries.map_values(|entry: String| pair_of(entry@)))
    } else {
        Err(ConfigErrorView::InvalidPair(entries[first_invalid(entries)]@))
    }
}

/// Reads one `channel=lambda` entry; `None` unless it holds exactly one `=`.
pub fn parse_pair(entry: &str) -> (r: Option<ChannelLambdaPair>)
    ensures
        r is Some <==> is_pair_text(entry@),
        r matches Some(pair) ==> pair@ == pair_of(entry@),
{
    let length = entry.unicode_len();
    let mut chars = entry.chars();
    let mut seen: usize = 0;
    let mut found: usize = 0;
    let mut separators: usize = 0;
    loop
        invariant
            chars.remaining() == entry@.skip(seen as int),
            seen <= entry@.len(),
            length == entry@.len(),
            separators == count_of(entry@.take(seen as int), '='),
            separators <= seen,
            separators == 0 ==> found == seen,
            first_index_of(entry@.take(seen as int), '=') == found,
            found <= seen,
        ensures
            seen == entry@.len(),
            separators == count_of(entry@, '='),
            first_index_of(entry@, '=') == found,
            found <= seen,
        decreases entry@.len() - seen,
    {
        let next = chars.next();
        match next {
            None => {
                proof {
                    assert(entry@.take(seen as int) =~= entry@);
                }
                break ;
            },
            Some(c) => {
                proof {
                    let before = entry@.take(seen as int);
                    let after = entry@.take(seen as int + 1);
                    assert(after =~= before.push(c));
                    assert(after.drop_last() =~= before);
                    lemma_first_index_push(before, c, '=');
                    lemma_first_index_bounds(before, '=');
                }
                if c == '=' {
                    separators += 1;
                } else if separators == 0 {
                    found += 1;
                }
                seen += 1;
            },
        }
    }
    if separators != 1 {
        return None;
    }
    proof {
        lemma_first_index_bounds(entry@, '=');
    }
    let channel = entry.substring_char(0, found);
    let lambda = entry.substring_char(found + 1, seen);
    proof {
        assert(entry@.subrange(0, found as int) =~= entry@.take(found as int));
        assert(entry@.subrange(found as int + 1, seen as int) =~= entry@.skip(found as int + 1));
    }
    Some(ChannelLambdaPair { channel: channel.to_owned(), lambda: lambda.to_owned() })
}

/// Reads a list of `channel=lambda` entries, in order. The first entry that
/// does not hold exactly one `=` is reported, and nothing is returned for the
/// entries before it.
pub fn parse_channel_pairs(channels: &[String]) -> (r: Result<Vec<ChannelLambdaPair>, ConfigError>)
    ensures
        match r {
            Ok(pairs) => parsed_pairs(channels@) == Ok::<Seq<PairView>, ConfigErrorView>(
                pairs@.map_values(|p: ChannelLambdaPair| p@),
            ),
            Err(e) => parsed_pairs(channels@) == Err::<Seq<PairView>, ConfigErrorView>(e@),
        },
{
    let mut pairs: Vec<ChannelLambdaPair> = Vec::new();
    let mut i: usize = 0;
    while i < channels.len()
        invariant
            i <= channels@.len(),
            pairs@.len() == i,
            forall|j: int| 0 <= j < i ==> is_pair_text(#[trigger] channels@[j]@),
            forall|j: int| 0 <= j < i ==> (#[trigger] pairs@[j])@ == pair_of(channels@[j]@),
        decreases channels@.len() - i,
    {
        let entry = &channels[i];
        match parse_pair(entry.as_str()) {
            None => {
                let offending = entry.clone();
                proof {
                    assert(is_first_invalid(channels@, i as int));
                    let k = first_invalid(channels@);
                    assert(is_first_invalid(channels@, k));
                    assert(k == i) by {
                        if k < i {
                            assert(is_pair_text(channels@[k]@));
                        } else if i < k {
                            assert(is_pair_text(channels@[i as int]@));
                        }
                    }
                }
                return Err(ConfigError::InvalidPair(offending));
            },
            Some(pair) => {
                pairs.push(pair);
            },
        }
        i += 1;
    }
    proof {
        assert(pairs@.map_values(|p: ChannelLambdaPair| p@) =~= channels@.map_values(
            |entry: String| pair_of(entry@),
        ));
    }
    Ok(pairs)
}

} // verus!
