//! The phrases that a recogniser should expect.

use vstd::prelude::*;
use vstd::string::*;
use crate::text::{blank, is_blank, same_text, to_chars, trim, trimmed};

verus! {

/// A phrase of the user's dictionary.
#[derive(Debug)]
pub struct DictionaryHotword {
    pub phrase: String,
    pub enabled: bool,
}

/// The characters of each text.
pub open spec fn texts(list: Seq<String>) -> Seq<Seq<char>> {
    list.map_values(|s: String| s@)
}

/// The phrases of a list, each with whether it is enabled.
pub open spec fn entries(list: Seq<DictionaryHotword>) -> Seq<(Seq<char>, bool)> {
    list.map_values(|e: DictionaryHotword| (e.phrase@, e.enabled))
}

/// Whether a character parts two phrases.
pub open spec fn is_separator(c: char) -> bool {
    c == ',' || c == ';' || c == '|' || c == '\n' || c == '\r' || c == '\t'
}

fn parts_phrases(c: char) -> (r: bool)
    ensures
        r == is_separator(c),
{
    c == ',' || c == ';' || c == '|' || c == '\n' || c == '\r' || c == '\t'
}

/// The pieces between separators.
pub open spec fn pieces(s: Seq<char>) -> Seq<Seq<char>>
    decreases s.len(),
{
    if s.len() == 0 {
        seq![Seq::empty()]
    } else if is_separator(s.last()) {
        pieces(s.drop_last()).push(Seq::empty())
    } else {
        let before = pieces(s.drop_last());
        before.drop_last().push(before.last().push(s.last()))
    }
}

/// The pieces that hold more than white space, without the white space around them.
pub open spec fn kept(list: Seq<Seq<char>>) -> Seq<Seq<char>>
    decreases list.len(),
{
    if list.len() == 0 {
        Seq::empty()
    } else if blank(list.last()) {
        kept(list.drop_last())
    } else {
        kept(list.drop_last()).push(trimmed(list.last()))
    }
}

fn keep_piece(out: &mut Vec<String>, piece: &str)
    ensures
        texts(final(out)@) == (if blank(piece@) {
            texts(old(out)@)
        } else {
            texts(old(out)@).push(trimmed(piece@))
        }),
{
    if !is_blank(piece) {
        out.push(trim(piece).to_owned());
        proof {
            assert(texts(out@) =~= texts(old(out)@).push(trimmed(piece@)));
        }
    }
}

/// Reads the extra phrases of a setting; commas, semicolons, bars, line ends and tabs part them.
pub fn extra_asr_hotword_phrases(raw: Option<&str>) -> (r: Vec<String>)
    ensures
        texts(r@) == (match raw {
            Some(text) => kept(pieces(text@)),
            None => Seq::empty(),
        }),
{
    let mut out: Vec<String> = Vec::new();
    let Some(text) = raw else {
        proof {
            assert(texts(out@) =~= Seq::empty());
        }
        return out;
    };
    let chars: Vec<char> = to_chars(text);
    let mut current: String = String::new();
    let ghost mut done: Seq<Seq<char>> = Seq::empty();
    let mut i: usize = 0;
    proof {
        assert(chars@.take(0) =~= Seq::empty());
        assert(done.push(current@) =~= pieces(chars@.take(0)));
        assert(texts(out@) =~= kept(done));
    }
    while i < chars.len()
        invariant
            i <= chars@.len(),
            pieces(chars@.take(i as int)) == done.push(current@),
            texts(out@) == kept(done),
        decreases chars@.len() - i,
    {
        let c: char = chars[i];
        proof {
            assert(chars@.take(i + 1).drop_last() =~= chars@.take(i as int));
            assert(chars@.take(i + 1).last() == c);
            assert(done.push(current@).drop_last() =~= done);
        }
        if parts_phrases(c) {
            keep_piece(&mut out, current.as_str());
            proof {
                done = done.push(current@);
                assert(done.drop_last() =~= done.take(done.len() - 1));
            }
            current = String::new();
            proof {
                assert(current@ =~= Seq::empty());
            }
        } else {
            current.push(c);
        }
        i = i + 1;
    }
    keep_piece(&mut out, current.as_str());
    proof {
        assert(chars@.take(i as int) =~= text@);
        assert(done.push(current@).drop_last() =~= done);
    }
    out
}

/// A list with extra phrases: each is enabled and joins the end, unless it already is there
/// enabled.
pub open spec fn with_extra(list: Seq<(Seq<char>, bool)>, phrases: Seq<Seq<char>>) -> Seq<
    (Seq<char>, bool),
>
    decreases phrases.len(),
{
    if phrases.len() == 0 {
        list
    } else {
        let before = with_extra(list, phrases.drop_last());
        if before.contains((phrases.last(), true)) {
            before
        } else {
            before.push((phrases.last(), true))
        }
    }
}

fn is_enabled(list: &Vec<DictionaryHotword>, phrase: &str) -> (r: bool)
    ensures
        r == entries(list@).contains((phrase@, true)),
{
    let mut i: usize = 0;
    while i < list.len()
        invariant
            i <= list@.len(),
            forall|j: int| 0 <= j < i ==> (#[trigger] entries(list@)[j]) != (phrase@, true),
        decreases list@.len() - i,
    {
        proof {
            assert(entries(list@)[i as int] == (list@[i as int].phrase@, list@[i as int].enabled));
        }
        if list[i].enabled && same_text(list[i].phrase.as_str(), phrase) {
            return true;
        }
        i = i + 1;
    }
    proof {
        assert(entries(list@).len() == list@.len());
    }
    false
}

/// Adds extra phrases to a list.
pub fn append_extra_asr_hotwords(hotwords: &mut Vec<DictionaryHotword>, phrases: Vec<String>)
    ensures
        entries(final(hotwords)@) == with_extra(entries(old(hotwords)@), texts(phrases@)),
{
    let mut i: usize = 0;
    proof {
        assert(texts(phrases@).take(0) =~= Seq::empty());
    }
    while i < phrases.len()
        invariant
            i <= phrases@.len(),
            entries(hotwords@) == with_extra(
                entries(old(hotwords)@),
                texts(phrases@).take(i as int),
            ),
        decreases phrases@.len() - i,
    {
        proof {
            assert(texts(phrases@).take(i + 1).drop_last() =~= texts(phrases@).take(i as int));
            assert(texts(phrases@).take(i + 1).last() == phrases@[i as int]@);
        }
        if !is_enabled(hotwords, phrases[i].as_str()) {
            let ghost before = hotwords@;
            hotwords.push(DictionaryHotword { phrase: phrases[i].clone(), enabled: true });
            proof {
                assert(entries(hotwords@) =~= entries(before).push((phrases@[i as int]@, true)));
            }
        }
        i = i + 1;
    }
    proof {
        assert(texts(phrases@).take(i as int) =~= texts(phrases@));
    }
}

/// The phrases that a recogniser should expect: the user's dictionary, and the extra ones of a
/// setting.
pub fn enabled_hotwords(vocabulary: Vec<DictionaryHotword>, extra: Option<&str>) -> (r: Vec<
    DictionaryHotword,
>)
    ensures
        entries(r@) == with_extra(
            entries(vocabulary@),
            match extra {
                Some(text) => kept(pieces(text@)),
                None => Seq::empty(),
            },
        ),
{
    let mut hotwords: Vec<DictionaryHotword> = vocabulary;
    append_extra_asr_hotwords(&mut hotwords, extra_asr_hotword_phrases(extra));
    hotwords
}

/// The dictionary keeps its place and its order: extra phrases only follow it.
pub proof fn the_dictionary_comes_first(list: Seq<(Seq<char>, bool)>, phrases: Seq<Seq<char>>)
    ensures
        list.is_prefix_of(with_extra(list, phrases)),
    decreases phrases.len(),
{
    if phrases.len() > 0 {
        the_dictionary_comes_first(list, phrases.drop_last());
    }
}

/// Every extra phrase is enabled afterwards.
pub proof fn every_extra_phrase_is_enabled(
    list: Seq<(Seq<char>, bool)>,
    phrases: Seq<Seq<char>>,
    i: int,
)
    requires
        0 <= i < phrases.len(),
    ensures
        with_extra(list, phrases).contains((phrases[i], true)),
    decreases phrases.len(),
{
    let before = with_extra(list, phrases.drop_last());
    if i == phrases.len() - 1 {
        if !before.contains((phrases[i], true)) {
            assert(before.push((phrases[i], true)).last() == (phrases[i], true));
        }
    } else {
        every_extra_phrase_is_enabled(list, phrases.drop_last(), i);
        let at = choose|j: int| 0 <= j < before.len() && before[j] == (phrases[i], true);
        assert(with_extra(list, phrases)[at] == (phrases[i], true));
    }
}

/// Whether the phrase at `p` is new: not enabled in the list, and not among the phrases before it.
pub open spec fn is_new(list: Seq<(Seq<char>, bool)>, phrases: Seq<Seq<char>>, p: int) -> bool {
    &&& 0 <= p < phrases.len()
    &&& !list.contains((phrases[p], true))
    &&& !phrases.take(p).contains(phrases[p])
}

/// The places of the new phrases, in order.
pub open spec fn new_places(list: Seq<(Seq<char>, bool)>, phrases: Seq<Seq<char>>) -> Seq<int>
    decreases phrases.len(),
{
    if phrases.len() == 0 {
        Seq::empty()
    } else {
        let before = new_places(list, phrases.drop_last());
        if is_new(list, phrases, phrases.len() - 1) {
            before.push(phrases.len() - 1)
        } else {
            before
        }
    }
}

/// What joins the list is exactly the new phrases, each once, enabled, and in the order in which
/// they first occur.
pub proof fn the_new_phrases_follow_in_order(
    list: Seq<(Seq<char>, bool)>,
    phrases: Seq<Seq<char>>,
)
    ensures
        ({
            let places = new_places(list, phrases);
            &&& with_extra(list, phrases) == list + places.map_values(|p: int| (phrases[p], true))
            &&& forall|p: int| #[trigger] places.contains(p) <==> is_new(list, phrases, p)
            &&& forall|a: int, b: int|
                0 <= a < b < places.len() ==> #[trigger] places[a] < #[trigger] places[b]
                    && phrases[places[a]] != phrases[places[b]]
        }),
    decreases phrases.len(),
{
    let places = new_places(list, phrases);
    if phrases.len() == 0 {
        assert(with_extra(list, phrases) =~= list + places.map_values(
            |p: int| (phrases[p], true),
        ));
    } else {
        let fewer = phrases.drop_last();
        let before = new_places(list, fewer);
        let last = phrases.len() - 1;
        the_new_phrases_follow_in_order(list, fewer);
        lemma_enabled_with_extra(list, fewer, phrases[last]);
        assert(phrases.take(last) =~= fewer);
        assert forall|p: int| is_new(list, fewer, p) <==> #[trigger] is_new(list, phrases, p) && p
            < last by {
            if 0 <= p < last {
                assert(fewer.take(p) =~= phrases.take(p));
            }
        }
        assert forall|k: int| 0 <= k < before.len() implies 0 <= (#[trigger] before[k]) < last by {
            assert(before.contains(before[k]));
            assert(is_new(list, fewer, before[k]));
        }
        assert(before.map_values(|p: int| (phrases[p], true)) =~= before.map_values(
            |p: int| (fewer[p], true),
        ));
        if is_new(list, phrases, last) {
            assert(places == before.push(last));
            assert(places.map_values(|p: int| (phrases[p], true)) =~= before.map_values(
                |p: int| (phrases[p], true),
            ).push((phrases[last], true)));
            assert(with_extra(list, phrases) =~= list + places.map_values(
                |p: int| (phrases[p], true),
            ));
            assert(places[before.len() as int] == last);
            assert forall|p: int| #[trigger] places.contains(p) <==> is_new(list, phrases, p) by {
                if before.contains(p) {
                    let k = choose|k: int| 0 <= k < before.len() && before[k] == p;
                    assert(places[k] == p);
                }
                if places.contains(p) && p != last {
                    let k = choose|k: int| 0 <= k < places.len() && places[k] == p;
                    assert(before[k] == p);
                    assert(before.contains(p));
                }
                if is_new(list, phrases, p) && p < last {
                    assert(is_new(list, fewer, p));
                    assert(before.contains(p));
                }
            }
            assert forall|a: int, b: int| 0 <= a < b < places.len() implies #[trigger] places[a]
                < #[trigger] places[b] && phrases[places[a]] != phrases[places[b]] by {
                assert(places[a] == before[a]);
                if b < before.len() {
                    assert(places[b] == before[b]);
                } else {
                    assert(fewer[places[a]] == phrases[places[a]]);
                    assert(fewer.contains(phrases[places[a]]));
                }
            }
        } else {
            assert(places == before);
            assert forall|p: int| #[trigger] places.contains(p) <==> is_new(list, phrases, p) by {
                assert(before.contains(p) <==> is_new(list, fewer, p));
            }
            assert forall|a: int, b: int| 0 <= a < b < places.len() implies #[trigger] places[a]
                < #[trigger] places[b] && phrases[places[a]] != phrases[places[b]] by {
                assert(before[a] < before[b]);
            }
        }
    }
}

proof fn lemma_enabled_with_extra(
    list: Seq<(Seq<char>, bool)>,
    phrases: Seq<Seq<char>>,
    phrase: Seq<char>,
)
    ensures
        with_extra(list, phrases).contains((phrase, true)) <==> list.contains((phrase, true))
            || phrases.contains(phrase),
    decreases phrases.len(),
{
    if phrases.len() > 0 {
        let fewer = phrases.drop_last();
        lemma_enabled_with_extra(list, fewer, phrase);
        let before = with_extra(list, fewer);
        let all = with_extra(list, phrases);
        if fewer.contains(phrase) {
            let k = choose|k: int| 0 <= k < fewer.len() && fewer[k] == phrase;
            assert(phrases[k] == phrase);
        }
        if phrases.contains(phrase) && phrase != phrases.last() {
            let k = choose|k: int| 0 <= k < phrases.len() && phrases[k] == phrase;
            assert(fewer[k] == phrase);
        }
        assert(phrases[phrases.len() - 1] == phrases.last());
        if !before.contains((phrases.last(), true)) {
            assert(all == before.push((phrases.last(), true)));
            assert(all[before.len() as int] == (phrases.last(), true));
            if before.contains((phrase, true)) {
                let k = choose|k: int| 0 <= k < before.len() && before[k] == (phrase, true);
                assert(all[k] == (phrase, true));
            }
            if all.contains((phrase, true)) && phrase != phrases.last() {
                let k = choose|k: int| 0 <= k < all.len() && all[k] == (phrase, true);
                assert(before[k] == (phrase, true));
            }
        }
    }
}

/// Adding the same phrases again changes nothing.
pub proof fn adding_phrases_again_changes_nothing(
    list: Seq<(Seq<char>, bool)>,
    phrases: Seq<Seq<char>>,
)
    ensures
        with_extra(with_extra(list, phrases), phrases) == with_extra(list, phrases),
{
    let all = with_extra(list, phrases);
    assert forall|i: int| 0 <= i < phrases.len() implies all.contains(
        (#[trigger] phrases[i], true),
    ) by {
        every_extra_phrase_is_enabled(list, phrases, i);
    }
    lemma_nothing_to_add(all, phrases);
}

proof fn lemma_nothing_to_add(list: Seq<(Seq<char>, bool)>, phrases: Seq<Seq<char>>)
    requires
        forall|i: int| 0 <= i < phrases.len() ==> list.contains((#[trigger] phrases[i], true)),
    ensures
        with_extra(list, phrases) == list,
    decreases phrases.len(),
{
    if phrases.len() > 0 {
        let fewer = phrases.drop_last();
        assert forall|i: int| 0 <= i < fewer.len() implies list.contains(
            (#[trigger] fewer[i], true),
        ) by {
            assert(fewer[i] == phrases[i]);
        }
        lemma_nothing_to_add(list, fewer);
        assert(list.contains((phrases[phrases.len() - 1], true)));
    }
}

/// A list without separators is one piece, and each separator ends one: what stands before it and
/// what stands behind it are taken apart on their own.
pub proof fn a_separator_parts_the_list(before: Seq<char>, separator: char, after: Seq<char>)
    requires
        separator == ',' || separator == ';' || separator == '|' || separator == '\n' || separator
            == '\r' || separator == '\t',
    ensures
        pieces(before + seq![separator] + after) == pieces(before) + pieces(after),
    decreases after.len(),
{
    lemma_pieces_are_some(before);
    lemma_pieces_are_some(after);
    let whole = before + seq![separator] + after;
    if after.len() == 0 {
        assert(whole.drop_last() =~= before);
        assert(whole.last() == separator);
        assert(pieces(whole) =~= pieces(before) + pieces(after));
    } else {
        let fewer = after.drop_last();
        a_separator_parts_the_list(before, separator, fewer);
        lemma_pieces_are_some(fewer);
        assert(whole.drop_last() =~= before + seq![separator] + fewer);
        assert(whole.last() == after.last());
        let earlier = pieces(before) + pieces(fewer);
        assert(earlier.last() == pieces(fewer).last());
        assert(pieces(whole) =~= pieces(before) + pieces(after));
    }
}

/// A list in which no separator stands is one piece, itself.
pub proof fn a_list_without_separators_is_one_piece(list: Seq<char>)
    requires
        forall|i: int|
            0 <= i < list.len() ==> {
                let c = #[trigger] list[i];
                c != ',' && c != ';' && c != '|' && c != '\n' && c != '\r' && c != '\t'
            },
    ensures
        pieces(list) == seq![list],
    decreases list.len(),
{
    if list.len() == 0 {
        assert(list =~= Seq::empty());
    } else {
        let fewer = list.drop_last();
        assert forall|i: int| 0 <= i < fewer.len() implies {
            let c = #[trigger] fewer[i];
            c != ',' && c != ';' && c != '|' && c != '\n' && c != '\r' && c != '\t'
        } by {
            assert(fewer[i] == list[i]);
        }
        a_list_without_separators_is_one_piece(fewer);
        assert(list.last() == list[list.len() - 1]);
        assert(fewer.push(list.last()) =~= list);
        assert(!is_separator(list.last()));
        assert(pieces(fewer).last() == fewer);
        assert(pieces(list) =~= seq![list]);
    }
}

proof fn lemma_pieces_are_some(s: Seq<char>)
    ensures
        pieces(s).len() > 0,
    decreases s.len(),
{
    if s.len() > 0 {
        lemma_pieces_are_some(s.drop_last());
    }
}

/// Every piece that says something is kept, without the white space around it, and in its place; the
/// others are not.
pub proof fn pieces_that_say_something_are_kept(
    first: Seq<Seq<char>>,
    second: Seq<Seq<char>>,
    piece: Seq<char>,
)
    ensures
        kept(first + second) == kept(first) + kept(second),
        !blank(piece) ==> kept(seq![piece]) == seq![trimmed(piece)],
        blank(piece) ==> kept(seq![piece]).len() == 0,
        kept(Seq::empty()).len() == 0,
    decreases second.len(),
{
    reveal_with_fuel(kept, 2);
    assert(seq![piece].drop_last() =~= Seq::<Seq<char>>::empty());
    if !blank(piece) {
        assert(kept(seq![piece]) =~= seq![trimmed(piece)]);
    }
    if second.len() == 0 {
        assert(first + second =~= first);
        assert(kept(first) + kept(second) =~= kept(first));
    } else {
        pieces_that_say_something_are_kept(first, second.drop_last(), piece);
        assert((first + second).drop_last() =~= first + second.drop_last());
        assert((first + second).last() == second.last());
        assert(kept(first + second) =~= kept(first) + kept(second));
    }
}

} // verus!
