//! The brand names that localized text may not show.
//!
//! Translations are shared with the browser this one is built from, so the values of messages and
//! the values of their attributes have the names of that browser and of its maker replaced. The
//! names of attributes and the texts of errors stay as they are.

use vstd::prelude::*;
use vstd::string::*;

verus! {

/// `text` with the occurrences of `from` replaced by `to`.
///
/// Occurrences are looked for from the left, and the search goes on behind the one just found,
/// so they do not overlap.
pub open spec fn replace_all(text: Seq<char>, from: Seq<char>, to: Seq<char>) -> Seq<char>
    decreases text.len(),
{
    if from.len() == 0 || text.len() < from.len() {
        text
    } else if text.take(from.len() as int) == from {
        to + replace_all(text.skip(from.len() as int), from, to)
    } else {
        seq![text[0]] + replace_all(text.skip(1), from, to)
    }
}

/// What becomes of a localized text before anybody sees it.
pub open spec fn rebranded(text: Seq<char>) -> Seq<char> {
    replace_all(replace_all(text, "Firefox"@, "Floorp"@), "Mozilla"@, "Ablaze"@)
}

/// `word` occurs in `text` at position `at`.
pub open spec fn occurs_at(text: Seq<char>, word: Seq<char>, at: int) -> bool {
    0 <= at && at + word.len() <= text.len() && text.subrange(at, at + word.len()) == word
}

/// `word` occurs somewhere in `text`.
pub open spec fn occurs(text: Seq<char>, word: Seq<char>) -> bool {
    exists|at: int| #[trigger] occurs_at(text, word, at)
}

/// The characters of `text`, one by one.
fn chars_of(text: &str) -> (chars: Vec<char>)
    ensures
        chars@ == text@,
{
    let mut chars: Vec<char> = Vec::new();
    for c in it: text.chars()
        invariant
            chars@ == text@.take(it.index() as int),
            it.seq() == text@,
    {
        chars.push(c);
    }
    chars
}

/// Tells whether `word` stands in `text` at position `at`.
fn stands_at(text: &Vec<char>, word: &Vec<char>, at: usize) -> (found: bool)
    requires
        at <= text@.len(),
    ensures
        found == occurs_at(text@, word@, at as int),
{
    if text.len() - at < word.len() {
        return false;
    }
    let mut i: usize = 0;
    while i < word.len()
        invariant
            i <= word@.len(),
            at + word@.len() <= text.len(),
            text@.subrange(at as int, at + i) == word@.take(i as int),
        decreases word@.len() - i,
    {
        if text[at + i] != word[i] {
            assert(text@.subrange(at as int, at + word@.len())[i as int] != word@[i as int]);
            return false;
        }
        i += 1;
        assert(text@.subrange(at as int, at + i) =~= word@.take(i as int));
    }
    assert(word@.take(i as int) =~= word@);
    true
}

/// Replaces the occurrences of `from` in `text` by `to`.
fn replace(text: &str, from: &str, to: &str) -> (replaced: String)
    requires
        from@.len() > 0,
    ensures
        replaced@ == replace_all(text@, from@, to@),
{
    let chars = chars_of(text);
    let word = chars_of(from);
    let mut replaced = String::new();
    let mut start: usize = 0;
    let mut i: usize = 0;
    assert(text@.skip(0) =~= text@);
    assert(text@.subrange(0, 0) =~= Seq::<char>::empty());
    assert(Seq::<char>::empty() + Seq::<char>::empty() + replace_all(text@, from@, to@)
        =~= replace_all(text@, from@, to@));
    while i < chars.len()
        invariant
            chars@ == text@,
            word@ == from@,
            from@.len() > 0,
            start <= i <= chars@.len(),
            replace_all(text@, from@, to@) == replaced@ + text@.subrange(start as int, i as int)
                + replace_all(text@.skip(i as int), from@, to@),
        decreases chars@.len() - i,
    {
        let ghost rest = text@.skip(i as int);
        assert(i + from@.len() <= text@.len() ==> rest.take(from@.len() as int)
            =~= text@.subrange(i as int, i + from@.len()));
        if stands_at(&chars, &word, i) {
            replaced.append(text.substring_char(start, i));
            replaced.append(to);
            i += word.len();
            start = i;
            assert(rest.skip(from@.len() as int) =~= text@.skip(i as int));
            assert(text@.subrange(start as int, i as int) =~= Seq::<char>::empty());
            assert(replace_all(text@, from@, to@) =~= replaced@ + text@.subrange(
                start as int,
                i as int,
            ) + replace_all(text@.skip(i as int), from@, to@));
        } else {
            assert(rest.skip(1) =~= text@.skip(i + 1));
            assert(rest.len() < from@.len() ==> rest.skip(1).len() < from@.len());
            assert(rest =~= seq![rest[0]] + rest.skip(1));
            assert(replace_all(rest, from@, to@) == seq![rest[0]] + replace_all(
                rest.skip(1),
                from@,
                to@,
            ));
            i += 1;
            assert(replace_all(text@, from@, to@) =~= replaced@ + text@.subrange(
                start as int,
                i as int,
            ) + replace_all(text@.skip(i as int), from@, to@));
        }
    }
    assert(text@.skip(i as int) =~= Seq::<char>::empty());
    replaced.append(text.substring_char(start, chars.len()));
    assert(replaced@ =~= replace_all(text@, from@, to@));
    replaced
}

/// Puts this browser's names in the place of the names that a translation may hold.
pub fn rebrand(text: &str) -> (shown: String)
    ensures
        shown@ == rebranded(text@),
{
    proof {
        reveal_strlit("Firefox");
        reveal_strlit("Mozilla");
    }
    let named = replace(text, "Firefox", "Floorp");
    replace(named.as_str(), "Mozilla", "Ablaze")
}

/// The words of a replacement are such that putting `to` in the place of another word can
/// neither bring about an occurrence of `word` nor complete one.
spec fn keeps_out(word: Seq<char>, to: Seq<char>) -> bool {
    &&& word.len() >= 2
    &&& to.len() >= 2
    &&& forall|i: int| 1 <= i < to.len() ==> to[i] != word[0]
    &&& forall|i: int| 1 <= i < word.len() ==> word[i] != to[0]
    &&& to[0] != word[0] || to[1] != word[1]
}

/// The beginning of a replaced text that holds no first letter of `to` was there before.
proof fn lemma_copied_beginning(text: Seq<char>, from: Seq<char>, to: Seq<char>, k: int)
    requires
        from.len() > 0,
        to.len() > 0,
        0 <= k <= replace_all(text, from, to).len(),
        forall|i: int| 0 <= i < k ==> replace_all(text, from, to)[i] != to[0],
    ensures
        k <= text.len(),
        text.take(k) == replace_all(text, from, to).take(k),
    decreases text.len(),
{
    let replaced = replace_all(text, from, to);
    if text.len() >= from.len() {
        if text.take(from.len() as int) == from {
            assert(replaced[0] == to[0]);
            assert(k == 0);
        } else if k > 0 {
            let rest = replace_all(text.skip(1), from, to);
            assert(replaced == seq![text[0]] + rest);
            assert forall|i: int| 0 <= i < k - 1 implies rest[i] != to[0] by {
                assert(rest[i] == replaced[i + 1]);
            }
            lemma_copied_beginning(text.skip(1), from, to, k - 1);
            assert forall|i: int| 0 <= i < k implies text[i] == replaced[i] by {
                if i > 0 {
                    assert(text[i] == text.skip(1).take(k - 1)[i - 1]);
                    assert(replaced[i] == rest.take(k - 1)[i - 1]);
                }
            }
        }
        assert(text.take(k) =~= replaced.take(k));
    }
}

/// A replacement that keeps `word` out leaves no occurrence of it, where it replaces that very
/// word or where there was none.
proof fn lemma_kept_out(text: Seq<char>, from: Seq<char>, to: Seq<char>, word: Seq<char>)
    requires
        from.len() > 0,
        keeps_out(word, to),
        word == from || !occurs(text, word),
    ensures
        !occurs(replace_all(text, from, to), word),
    decreases text.len(),
{
    let replaced = replace_all(text, from, to);
    if text.len() >= from.len() {
        let hit = text.take(from.len() as int) == from;
        let step: int = if hit { from.len() as int } else { 1 };
        let head = if hit { to } else { seq![text[0]] };
        let rest = replace_all(text.skip(step), from, to);
        assert(replaced == head + rest);
        if word != from {
            assert forall|at: int| !occurs_at(text.skip(step), word, at) by {
                if occurs_at(text.skip(step), word, at) {
                    assert(text.subrange(at + step, at + step + word.len()) =~= text.skip(
                        step,
                    ).subrange(at, at + word.len()));
                    assert(occurs_at(text, word, at + step));
                }
            }
        }
        lemma_kept_out(text.skip(step), from, to, word);
        assert forall|at: int| !occurs_at(replaced, word, at) by {
            if occurs_at(replaced, word, at) {
                let found = replaced.subrange(at, at + word.len());
                assert(found[0] == word[0] && found[1] == word[1]);
                if at >= head.len() {
                    assert(rest.subrange(at - head.len(), at - head.len() + word.len()) =~= found);
                    assert(occurs_at(rest, word, at - head.len()));
                } else if hit {
                    assert(replaced[at] == to[at]);
                    assert(replaced[1] == to[1]);
                } else {
                    let k = word.len() - 1;
                    assert forall|i: int| 0 <= i < k implies rest[i] != to[0] && rest[i]
                        == word[i + 1] by {
                        assert(rest[i] == replaced[i + 1]);
                        assert(found[i + 1] == word[i + 1]);
                    }
                    lemma_copied_beginning(text.skip(1), from, to, k);
                    assert forall|i: int| 0 <= i < word.len() implies text[i] == word[i] by {
                        if i > 0 {
                            assert(text[i] == text.skip(1).take(k)[i - 1]);
                            assert(rest.take(k)[i - 1] == word[i]);
                        }
                    }
                    assert(text.take(word.len() as int) =~= word);
                    assert(text.subrange(0, word.len() as int) =~= word);
                    assert(occurs_at(text, word, 0));
                }
            }
        }
    } else {
        assert forall|at: int| !occurs_at(replaced, word, at) by {
        }
    }
}

/// A text without `from` is left as it is.
proof fn lemma_nothing_to_replace(text: Seq<char>, from: Seq<char>, to: Seq<char>)
    requires
        !occurs(text, from),
    ensures
        replace_all(text, from, to) == text,
    decreases text.len(),
{
    if from.len() > 0 && text.len() >= from.len() {
        if text.take(from.len() as int) == from {
            assert(text.subrange(0, from.len() as int) =~= from);
            assert(occurs_at(text, from, 0));
        } else {
            assert forall|at: int| !occurs_at(text.skip(1), from, at) by {
                if occurs_at(text.skip(1), from, at) {
                    assert(text.subrange(at + 1, at + 1 + from.len()) =~= text.skip(1).subrange(
                        at,
                        at + from.len(),
                    ));
                    assert(occurs_at(text, from, at + 1));
                }
            }
            lemma_nothing_to_replace(text.skip(1), from, to);
            assert(seq![text[0]] + text.skip(1) =~= text);
        }
    }
}

/// No text that is shown holds one of the names that are replaced.
pub proof fn rebranded_text_holds_no_foreign_brand(text: Seq<char>)
    ensures
        !occurs(rebranded(text), "Firefox"@),
        !occurs(rebranded(text), "Mozilla"@),
{
    reveal_strlit("Firefox");
    reveal_strlit("Floorp");
    reveal_strlit("Mozilla");
    reveal_strlit("Ablaze");
    let named = replace_all(text, "Firefox"@, "Floorp"@);
    lemma_kept_out(text, "Firefox"@, "Floorp"@, "Firefox"@);
    lemma_kept_out(named, "Mozilla"@, "Ablaze"@, "Firefox"@);
    lemma_kept_out(named, "Mozilla"@, "Ablaze"@, "Mozilla"@);
}

/// A text is changed exactly where it holds one of the names that are replaced.
pub proof fn rebranding_changes_foreign_brands_only(text: Seq<char>)
    ensures
        rebranded(text) == text <==> !occurs(text, "Firefox"@) && !occurs(text, "Mozilla"@),
{
    rebranded_text_holds_no_foreign_brand(text);
    if !occurs(text, "Firefox"@) && !occurs(text, "Mozilla"@) {
        lemma_nothing_to_replace(text, "Firefox"@, "Floorp"@);
        lemma_nothing_to_replace(text, "Mozilla"@, "Ablaze"@);
    }
}

/// To rebrand a text a second time changes nothing.
pub proof fn rebranding_twice_is_rebranding_once(text: Seq<char>)
    ensures
        rebranded(rebranded(text)) == rebranded(text),
{
    rebranded_text_holds_no_foreign_brand(text);
    rebranding_changes_foreign_brands_only(rebranded(text));
}

/// A word occurs at a position exactly where the text is what stands before it, the word, and
/// what stands behind it.
pub proof fn word_occurs_where_it_stands(
    text: Seq<char>,
    word: Seq<char>,
    before: Seq<char>,
    behind: Seq<char>,
    at: int,
)
    ensures
        occurs_at(before + word + behind, word, before.len() as int),
        occurs(before + word + behind, word),
        occurs_at(text, word, at) ==> 0 <= at <= text.len() - word.len() && text == text.take(at)
            + word + text.skip(at + word.len()),
        occurs(text, word) ==> exists|a: Seq<char>, b: Seq<char>| text == #[trigger] (a + word + b),
{
    let whole = before + word + behind;
    assert(whole.subrange(before.len() as int, (before.len() + word.len()) as int) =~= word);
    assert(occurs_at(whole, word, before.len() as int));
    assert forall|p: int| #[trigger] occurs_at(text, word, p) implies text == text.take(p) + word
        + text.skip(p + word.len()) by {
        assert(text =~= text.take(p) + text.subrange(p, p + word.len()) + text.skip(
            p + word.len(),
        ));
    }
    if occurs(text, word) {
        let p = choose|p: int| #[trigger] occurs_at(text, word, p);
        assert(text == text.take(p) + word + text.skip(p + word.len()));
    }
}

/// Text that does not hold the first letter of `from` is passed over.
proof fn lemma_passed_over(kept: Seq<char>, rest: Seq<char>, from: Seq<char>, to: Seq<char>)
    requires
        from.len() > 0,
        forall|i: int| 0 <= i < kept.len() ==> kept[i] != from[0],
    ensures
        replace_all(kept + rest, from, to) == kept + replace_all(rest, from, to),
    decreases kept.len(),
{
    let text = kept + rest;
    if kept.len() == 0 {
        assert(text =~= rest);
        assert(kept + replace_all(rest, from, to) =~= replace_all(rest, from, to));
    } else if text.len() >= from.len() {
        assert(text.take(from.len() as int)[0] == kept[0]);
        assert(text.skip(1) =~= kept.skip(1) + rest);
        lemma_passed_over(kept.skip(1), rest, from, to);
        assert(seq![text[0]] + (kept.skip(1) + replace_all(rest, from, to)) =~= kept + replace_all(
            rest,
            from,
            to,
        ));
    }
}

/// A word that no occurrence of `from` can reach into parts the text: it stays, and what stands
/// before it and behind it is replaced by itself.
proof fn lemma_parted(
    a: Seq<char>,
    word: Seq<char>,
    b: Seq<char>,
    from: Seq<char>,
    to: Seq<char>,
)
    requires
        from.len() > 0,
        word.len() > 0,
        forall|i: int| 0 <= i < from.len() ==> from[i] != word[0],
        forall|i: int| 0 <= i < word.len() ==> word[i] != from[0],
    ensures
        replace_all(a + word + b, from, to) == replace_all(a, from, to) + word + replace_all(
            b,
            from,
            to,
        ),
    decreases a.len(),
{
    let n = from.len() as int;
    let text = a + word + b;
    let behind = word + replace_all(b, from, to);
    assert(replace_all(a, from, to) + word + replace_all(b, from, to) =~= replace_all(a, from, to)
        + behind);
    if a.len() == 0 {
        assert(text =~= word + b);
        lemma_passed_over(word, b, from, to);
        assert(replace_all(a, from, to) + behind =~= behind);
    } else if text.len() < n {
        assert(replace_all(a, from, to) + behind =~= text);
    } else if a.len() >= n && a.take(n) == from {
        assert(text.take(n) =~= from);
        assert(text.skip(n) =~= a.skip(n) + word + b);
        lemma_parted(a.skip(n), word, b, from, to);
        assert(to + (replace_all(a.skip(n), from, to) + word + replace_all(b, from, to))
            =~= replace_all(a, from, to) + behind);
    } else {
        if text.take(n) == from {
            if a.len() >= n {
                assert(a.take(n) =~= text.take(n));
            } else {
                assert(text.take(n)[a.len() as int] == word[0]);
            }
        }
        assert(text.skip(1) =~= a.skip(1) + word + b);
        lemma_parted(a.skip(1), word, b, from, to);
        assert(replace_all(a, from, to) =~= seq![a[0]] + replace_all(a.skip(1), from, to));
        assert(seq![text[0]] + (replace_all(a.skip(1), from, to) + word + replace_all(b, from, to))
            =~= replace_all(a, from, to) + behind);
    }
}

/// A word that cannot overlap itself is replaced wherever it stands, and what stands before it and
/// behind it is replaced by itself.
proof fn lemma_replaced(a: Seq<char>, b: Seq<char>, from: Seq<char>, to: Seq<char>)
    requires
        from.len() > 0,
        forall|i: int| 1 <= i < from.len() ==> (#[trigger] from[i]) != from[0],
    ensures
        replace_all(a + from + b, from, to) == replace_all(a, from, to) + to + replace_all(
            b,
            from,
            to,
        ),
    decreases a.len(),
{
    let n = from.len() as int;
    let text = a + from + b;
    let behind = to + replace_all(b, from, to);
    assert(replace_all(a, from, to) + to + replace_all(b, from, to) =~= replace_all(a, from, to)
        + behind);
    if a.len() == 0 {
        assert(text.take(n) =~= from);
        assert(text.skip(n) =~= b);
        assert(replace_all(a, from, to) + behind =~= behind);
    } else if a.len() >= n && a.take(n) == from {
        assert(text.take(n) =~= from);
        assert(text.skip(n) =~= a.skip(n) + from + b);
        lemma_replaced(a.skip(n), b, from, to);
        assert(to + (replace_all(a.skip(n), from, to) + to + replace_all(b, from, to))
            =~= replace_all(a, from, to) + behind);
    } else {
        if text.take(n) == from {
            if a.len() >= n {
                assert(a.take(n) =~= text.take(n));
            } else {
                assert(text.take(n)[a.len() as int] == from[0]);
            }
        }
        assert(text.skip(1) =~= a.skip(1) + from + b);
        lemma_replaced(a.skip(1), b, from, to);
        assert(replace_all(a, from, to) =~= seq![a[0]] + replace_all(a.skip(1), from, to));
        assert(seq![text[0]] + (replace_all(a.skip(1), from, to) + to + replace_all(b, from, to))
            =~= replace_all(a, from, to) + behind);
    }
}

/// A text in which a word does not occur stays as it is when the word is replaced.
pub proof fn text_without_the_word_stays(text: Seq<char>, from: Seq<char>, to: Seq<char>)
    requires
        !occurs(text, from),
    ensures
        replace_all(text, from, to) == text,
{
    lemma_nothing_to_replace(text, from, to);
}

/// The first occurrence of a word is replaced, everything before it stays, and the replacing goes
/// on behind it.
pub proof fn first_occurrence_is_replaced(
    a: Seq<char>,
    b: Seq<char>,
    from: Seq<char>,
    to: Seq<char>,
)
    requires
        from.len() > 0,
        !occurs(a + from.drop_last(), from),
    ensures
        replace_all(a + from + b, from, to) == a + to + replace_all(b, from, to),
    decreases a.len(),
{
    let n = from.len() as int;
    let text = a + from + b;
    if a.len() == 0 {
        assert(text.take(n) =~= from);
        assert(text.skip(n) =~= b);
        assert(a + to + replace_all(b, from, to) =~= to + replace_all(b, from, to));
    } else {
        let start = a + from.drop_last();
        if text.take(n) == from {
            assert(start.subrange(0, n) =~= text.take(n));
            assert(occurs_at(start, from, 0));
        }
        let later = a.skip(1) + from.drop_last();
        assert forall|at: int| !occurs_at(later, from, at) by {
            if occurs_at(later, from, at) {
                assert(start.subrange(at + 1, at + 1 + n) =~= later.subrange(at, at + n));
                assert(occurs_at(start, from, at + 1));
            }
        }
        assert(text.skip(1) =~= a.skip(1) + from + b);
        first_occurrence_is_replaced(a.skip(1), b, from, to);
        assert(seq![text[0]] + (a.skip(1) + to + replace_all(b, from, to)) =~= a + to + replace_all(
            b,
            from,
            to,
        ));
    }
}

/// Each of the names is replaced wherever it stands, by its own counterpart, and the texts before
/// it and behind it are shown as they are shown by themselves: nothing is lost and nothing moves.
pub proof fn names_are_replaced_in_place(a: Seq<char>, b: Seq<char>)
    ensures
        rebranded(a + "Firefox"@ + b) == rebranded(a) + "Floorp"@ + rebranded(b),
        rebranded(a + "Mozilla"@ + b) == rebranded(a) + "Ablaze"@ + rebranded(b),
{
    reveal_strlit("Firefox");
    reveal_strlit("Floorp");
    reveal_strlit("Mozilla");
    reveal_strlit("Ablaze");
    let named_a = replace_all(a, "Firefox"@, "Floorp"@);
    let named_b = replace_all(b, "Firefox"@, "Floorp"@);
    lemma_replaced(a, b, "Firefox"@, "Floorp"@);
    lemma_parted(named_a, "Floorp"@, named_b, "Mozilla"@, "Ablaze"@);
    lemma_parted(a, "Mozilla"@, b, "Firefox"@, "Floorp"@);
    lemma_replaced(named_a, named_b, "Mozilla"@, "Ablaze"@);
}

} // verus!
