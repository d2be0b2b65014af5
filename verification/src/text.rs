//! Text as sequences of Unicode scalar values: splitting, joining, trimming and ordering.

use vstd::prelude::*;

verus! {

/// The elements of `items`, each taken by its view.
pub open spec fn views<T: View>(items: Seq<T>) -> Seq<T::V> {
    Seq::new(items.len(), |i: int| items[i]@)
}

/// An optional value taken by its view.
pub open spec fn option_view<T: View>(item: Option<T>) -> Option<T::V> {
    match item {
        Some(item) => Some(item@),
        None => None,
    }
}

/// Appends one character, as `String::push` documents.
pub assume_specification[ String::push ](text: &mut String, character: char)
    ensures
        final(text)@ == old(text)@.push(character),
;

/// The lower-case form that `str::to_lowercase` gives for a text.
pub uninterp spec fn lowercase(text: Seq<char>) -> Seq<char>;

/// Whether `char::is_alphanumeric` holds of a character.
pub uninterp spec fn is_alphanumeric(character: char) -> bool;

/// Calls `str::to_lowercase`: the result is a function of the text alone.
#[verifier::external_body]
pub(crate) fn to_lowercase(text: &str) -> (lowered: String)
    ensures
        lowered@ == lowercase(text@),
{
    text.to_lowercase()
}

/// Calls `char::is_alphanumeric`: the answer is a function of the character alone.
#[verifier::external_body]
pub(crate) fn char_is_alphanumeric(character: char) -> (answer: bool)
    ensures
        answer == is_alphanumeric(character),
{
    character.is_alphanumeric()
}

/// The characters with the Unicode `White_Space` property.
pub open spec fn is_whitespace(character: char) -> bool {
    let code = character as u32;
    ||| 0x09 <= code <= 0x0d
    ||| code == 0x20
    ||| code == 0x85
    ||| code == 0xa0
    ||| code == 0x1680
    ||| 0x2000 <= code <= 0x200a
    ||| code == 0x2028
    ||| code == 0x2029
    ||| code == 0x202f
    ||| code == 0x205f
    ||| code == 0x3000
}

/// Tells whether a character has the Unicode `White_Space` property.
pub fn char_is_whitespace(character: char) -> (answer: bool)
    ensures
        answer == is_whitespace(character),
{
    let code: u32 = character as u32;
    (0x09 <= code && code <= 0x0d) || code == 0x20 || code == 0x85 || code == 0xa0 || code == 0x1680
        || (0x2000 <= code && code <= 0x200a) || code == 0x2028 || code == 0x2029 || code == 0x202f
        || code == 0x205f || code == 0x3000
}

/// The characters of a text, one per element.
pub fn chars_of(text: &str) -> (chars: Vec<char>)
    ensures
        chars@ == text@,
{
    let mut chars: Vec<char> = Vec::new();
    for c in iter: text.chars()
        invariant
            chars@ == iter.seq().take(iter.index() as int),
    {
        chars.push(c);
    }
    chars
}

/// The text made of the given characters.
pub fn text_of(chars: &Vec<char>) -> (text: String)
    ensures
        text@ == chars@,
{
    text_between(chars, 0, chars.len())
}

/// The text made of the characters from `start` up to, not including, `end`.
pub fn text_between(chars: &Vec<char>, start: usize, end: usize) -> (text: String)
    requires
        start <= end <= chars@.len(),
    ensures
        text@ == chars@.subrange(start as int, end as int),
{
    let mut text = String::new();
    let mut i: usize = start;
    while i < end
        invariant
            start <= i <= end <= chars@.len(),
            text@ == chars@.subrange(start as int, i as int),
        decreases end - i,
    {
        text.push(chars[i]);
        i = i + 1;
    }
    text
}

/// Compares two texts character by character.
pub fn same_text(left: &str, right: &str) -> (same: bool)
    ensures
        same == (left@ == right@),
{
    left.to_owned() == right.to_owned()
}

/// Whether `text` begins with `prefix`.
pub open spec fn starts_with(text: Seq<char>, prefix: Seq<char>) -> bool {
    prefix.len() <= text.len() && text.take(prefix.len() as int) == prefix
}

/// The part of a text behind a prefix, or nothing where the text does not begin with it.
pub fn strip_prefix(text: &str, prefix: &str) -> (rest: Option<String>)
    ensures
        match rest {
            Some(rest) => starts_with(text@, prefix@) && rest@ == text@.skip(prefix@.len() as int),
            None => !starts_with(text@, prefix@),
        },
{
    let text_chars = chars_of(text);
    let prefix_chars = chars_of(prefix);
    if prefix_chars.len() > text_chars.len() {
        return None;
    }
    let mut i: usize = 0;
    while i < prefix_chars.len()
        invariant
            0 <= i <= prefix_chars@.len() <= text_chars@.len(),
            text_chars@ == text@,
            prefix_chars@ == prefix@,
            text_chars@.take(i as int) == prefix_chars@.take(i as int),
        decreases prefix_chars@.len() - i,
    {
        if text_chars[i] != prefix_chars[i] {
            assert(text_chars@.take(prefix_chars@.len() as int)[i as int] != prefix_chars@[i as int]);
            return None;
        }
        assert(text_chars@.take(i + 1) =~= text_chars@.take(i as int).push(text_chars@[i as int]));
        assert(prefix_chars@.take(i + 1) =~= prefix_chars@.take(i as int).push(prefix_chars@[i as int]));
        i = i + 1;
    }
    assert(prefix_chars@.take(i as int) =~= prefix_chars@);
    assert(text_chars@.skip(i as int) =~= text_chars@.subrange(i as int, text_chars@.len() as int));
    Some(text_between(&text_chars, i, text_chars.len()))
}

/// Tells whether a text holds a character.
pub fn contains_char(text: &str, character: char) -> (found: bool)
    ensures
        found == text@.contains(character),
{
    let chars = chars_of(text);
    let mut i: usize = 0;
    while i < chars.len()
        invariant
            0 <= i <= chars@.len(),
            chars@ == text@,
            forall|j: int| 0 <= j < i ==> chars@[j] != character,
        decreases chars@.len() - i,
    {
        if chars[i] == character {
            return true;
        }
        i = i + 1;
    }
    false
}

/// Whether every character of a text is white space; an empty text is blank.
pub open spec fn is_blank(text: Seq<char>) -> bool {
    forall|i: int| 0 <= i < text.len() ==> is_whitespace(#[trigger] text[i])
}

/// Tells whether nothing but white space is in a text.
pub fn blank(text: &str) -> (answer: bool)
    ensures
        answer == is_blank(text@),
{
    let chars = chars_of(text);
    let mut i: usize = 0;
    while i < chars.len()
        invariant
            0 <= i <= chars@.len(),
            chars@ == text@,
            forall|j: int| 0 <= j < i ==> is_whitespace(#[trigger] chars@[j]),
        decreases chars@.len() - i,
    {
        if !char_is_whitespace(chars[i]) {
            return false;
        }
        i = i + 1;
    }
    true
}

/// The text without its leading white space.
pub open spec fn trim_start(text: Seq<char>) -> Seq<char>
    decreases text.len(),
{
    if text.len() > 0 && is_whitespace(text.first()) {
        trim_start(text.drop_first())
    } else {
        text
    }
}

/// The text without its trailing white space.
pub open spec fn trim_end(text: Seq<char>) -> Seq<char>
    decreases text.len(),
{
    if text.len() > 0 && is_whitespace(text.last()) {
        trim_end(text.drop_last())
    } else {
        text
    }
}

/// The text without white space at either end.
pub open spec fn trimmed(text: Seq<char>) -> Seq<char> {
    trim_end(trim_start(text))
}

/// Removes white space at both ends.
pub fn trim(text: &str) -> (rest: String)
    ensures
        rest@ == trimmed(text@),
{
    let chars = chars_of(text);
    let mut start: usize = 0;
    assert(chars@.skip(0) =~= chars@);
    while start < chars.len() && char_is_whitespace(chars[start])
        invariant
            0 <= start <= chars@.len(),
            chars@ == text@,
            trim_start(chars@.skip(start as int)) == trim_start(text@),
        decreases chars@.len() - start,
    {
        assert(chars@.skip(start as int).drop_first() =~= chars@.skip(start + 1));
        start = start + 1;
    }
    let mut end: usize = chars.len();
    proof {
        assert(chars@.skip(start as int) =~= chars@.subrange(start as int, end as int));
    }
    while end > start && char_is_whitespace(chars[end - 1])
        invariant
            start <= end <= chars@.len(),
            trim_end(chars@.subrange(start as int, end as int)) == trimmed(text@),
        decreases end - start,
    {
        assert(chars@.subrange(start as int, end as int).drop_last() =~= chars@.subrange(
            start as int,
            end - 1,
        ));
        end = end - 1;
    }
    text_between(&chars, start, end)
}

/// The maximal runs of characters that are not white space, from left to right.
pub open spec fn words(text: Seq<char>) -> Seq<Seq<char>>
    decreases text.len(),
{
    if text.len() == 0 {
        Seq::empty()
    } else {
        let before = words(text.drop_last());
        let c = text.last();
        if is_whitespace(c) {
            before
        } else if text.len() > 1 && !is_whitespace(text[text.len() - 2]) {
            before.drop_last().push(before.last().push(c))
        } else {
            before.push(seq![c])
        }
    }
}

/// Splits a text at its white space.
pub fn words_of(text: &str) -> (found: Vec<String>)
    ensures
        views(found@) == words(text@),
{
    let chars = chars_of(text);
    let mut found: Vec<String> = Vec::new();
    let mut current = String::new();
    let mut inside: bool = false;
    let mut i: usize = 0;
    while i < chars.len()
        invariant
            0 <= i <= chars@.len(),
            chars@ == text@,
            inside == (i > 0 && !is_whitespace(chars@[i - 1])),
            inside ==> words(chars@.take(i as int)) == views(found@).push(current@),
            !inside ==> words(chars@.take(i as int)) == views(found@) && current@.len() == 0,
        decreases chars@.len() - i,
    {
        let c = chars[i];
        proof {
            assert(chars@.take(i + 1).drop_last() =~= chars@.take(i as int));
        }
        if char_is_whitespace(c) {
            if inside {
                let ghost earlier = found@;
                let ghost word = current@;
                found.push(current);
                assert(views(found@) =~= views(earlier).push(word));
                current = String::new();
            }
            inside = false;
        } else {
            let ghost word = current@;
            current.push(c);
            proof {
                if inside {
                    assert(views(found@).push(word).drop_last() =~= views(found@));
                } else {
                    assert(word =~= Seq::<char>::empty());
                    assert(current@ =~= seq![c]);
                }
            }
            inside = true;
        }
        i = i + 1;
    }
    assert(chars@.take(i as int) =~= text@);
    if inside {
        let ghost earlier = found@;
        let ghost word = current@;
        found.push(current);
        assert(views(found@) =~= views(earlier).push(word));
    }
    found
}

/// The words with one space between neighbours.
pub open spec fn joined(words: Seq<Seq<char>>) -> Seq<char>
    decreases words.len(),
{
    if words.len() == 0 {
        Seq::empty()
    } else if words.len() == 1 {
        words[0]
    } else {
        joined(words.drop_last()).push(' ') + words.last()
    }
}

/// Joins words with one space between neighbours.
pub fn join(words: &Vec<String>) -> (text: String)
    ensures
        text@ == joined(views(words@)),
{
    let mut text = String::new();
    let mut i: usize = 0;
    while i < words.len()
        invariant
            0 <= i <= words@.len(),
            text@ == joined(views(words@).take(i as int)),
        decreases words@.len() - i,
    {
        proof {
            assert(views(words@).take(i + 1).drop_last() =~= views(words@).take(i as int));
        }
        if i > 0 {
            text.push(' ');
        }
        text.append(words[i].as_str());
        proof {
            assert(i == 0 ==> text@ =~= words@[0]@);
        }
        i = i + 1;
    }
    assert(views(words@).take(i as int) =~= views(words@));
    text
}

/// Code-point order: the text that ends first, or has the smaller character at the first
/// difference, comes first.
pub open spec fn precedes(left: Seq<char>, right: Seq<char>) -> bool
    decreases left.len(),
{
    if right.len() == 0 {
        false
    } else if left.len() == 0 {
        true
    } else if left[0] == right[0] {
        precedes(left.drop_first(), right.drop_first())
    } else {
        left[0] < right[0]
    }
}

/// Tells whether one text comes before another in code-point order.
pub fn text_precedes(left: &str, right: &str) -> (answer: bool)
    ensures
        answer == precedes(left@, right@),
{
    let a = chars_of(left);
    let b = chars_of(right);
    let mut i: usize = 0;
    proof {
        assert(a@.skip(0) =~= a@);
        assert(b@.skip(0) =~= b@);
    }
    while i < a.len() && i < b.len()
        invariant
            0 <= i <= a@.len(),
            i <= b@.len(),
            precedes(a@.skip(i as int), b@.skip(i as int)) == precedes(left@, right@),
        decreases a@.len() - i,
    {
        if a[i] != b[i] {
            return a[i] < b[i];
        }
        proof {
            assert(a@.skip(i as int).drop_first() =~= a@.skip(i + 1));
            assert(b@.skip(i as int).drop_first() =~= b@.skip(i + 1));
        }
        i = i + 1;
    }
    i < b.len()
}

/// No text comes before itself.
pub proof fn precedes_irreflexive(text: Seq<char>)
    ensures
        !precedes(text, text),
    decreases text.len(),
{
    if text.len() > 0 {
        precedes_irreflexive(text.drop_first());
    }
}

/// Code-point order is transitive.
pub proof fn precedes_transitive(a: Seq<char>, b: Seq<char>, c: Seq<char>)
    requires
        precedes(a, b),
        precedes(b, c),
    ensures
        precedes(a, c),
    decreases a.len(),
{
    if a.len() > 0 && b.len() > 0 && c.len() > 0 && a[0] == b[0] && b[0] == c[0] {
        precedes_transitive(a.drop_first(), b.drop_first(), c.drop_first());
    }
}

/// Of two different texts one comes before the other.
pub proof fn precedes_total(a: Seq<char>, b: Seq<char>)
    ensures
        a == b || precedes(a, b) || precedes(b, a),
    decreases a.len(),
{
    if a.len() > 0 && b.len() > 0 && a[0] == b[0] {
        precedes_total(a.drop_first(), b.drop_first());
        if a.drop_first() == b.drop_first() {
            assert(a =~= seq![a[0]] + a.drop_first());
            assert(b =~= seq![b[0]] + b.drop_first());
        }
    } else if a.len() == 0 && b.len() == 0 {
        assert(a =~= b);
    }
}

/// The characters that may stand inside one word.
pub open spec fn is_word(text: Seq<char>) -> bool {
    &&& text.len() > 0
    &&& forall|i: int| 0 <= i < text.len() ==> !is_whitespace(#[trigger] text[i])
}

/// Splitting gives words only: none is empty and none holds white space.
pub proof fn words_are_words(text: Seq<char>)
    ensures
        forall|i: int| 0 <= i < words(text).len() ==> is_word(#[trigger] words(text)[i]),
        text.len() > 0 && !is_whitespace(text.last()) ==> words(text).len() > 0,
    decreases text.len(),
{
    if text.len() > 0 {
        words_are_words(text.drop_last());
        let before = words(text.drop_last());
        let c = text.last();
        if !is_whitespace(c) && text.len() > 1 && !is_whitespace(text[text.len() - 2]) {
            assert(text.drop_last().last() == text[text.len() - 2]);
            assert(is_word(before.last().push(c))) by {
                assert(is_word(before[before.len() - 1]));
            }
        }
    }
}

/// Whether single spaces separate the words of a text: there is no other white space, none at either
/// end, and no two spaces stand next to each other.
pub open spec fn single_spaced(text: Seq<char>) -> bool {
    &&& forall|i: int| 0 <= i < text.len() ==> (#[trigger] text[i]) == ' ' || !is_whitespace(text[i])
    &&& text.len() > 0 ==> text[0] != ' ' && text.last() != ' '
    &&& spaces_stand_alone(text)
}

/// Whether no two spaces stand next to each other.
pub open spec fn spaces_stand_alone(text: Seq<char>) -> bool {
    forall|i: int, j: int|
        0 <= i < j < text.len() && j == i + 1 ==> !((#[trigger] text[i]) == ' ' && (
        #[trigger] text[j]) == ' ')
}

/// Joining the words of a text gives it back, but for a space at its end.
proof fn joined_words_of_prefix(text: Seq<char>)
    requires
        forall|i: int|
            0 <= i < text.len() ==> (#[trigger] text[i]) == ' ' || !is_whitespace(text[i]),
        text.len() > 0 ==> text[0] != ' ',
        spaces_stand_alone(text),
    ensures
        joined(words(text)) == if text.len() > 0 && text.last() == ' ' {
            text.drop_last()
        } else {
            text
        },
    decreases text.len(),
{
    if text.len() > 0 {
        let earlier = text.drop_last();
        let c = text.last();
        assert forall|i: int| 0 <= i < earlier.len() implies (#[trigger] earlier[i]) == ' '
            || !is_whitespace(earlier[i]) by {
            assert(earlier[i] == text[i]);
        }
        joined_words_of_prefix(earlier);
        let before = words(earlier);
        if c == ' ' {
            assert(earlier.len() > 0);
            assert(earlier.last() == text[text.len() - 2]);
            assert(!(text[text.len() - 2] == ' ' && text[text.len() - 1] == ' '));
        } else {
            assert(!is_whitespace(text[text.len() - 1]));
            if earlier.len() == 0 {
                assert(words(text) =~= seq![seq![c]]);
                assert(text =~= seq![c]);
            } else if earlier.last() == ' ' {
                assert(earlier.len() > 1);
                assert(before.len() > 0);
                assert(words(text) =~= before.push(seq![c]));
                assert(words(text).drop_last() =~= before);
                assert(text =~= earlier.drop_last().push(' ') + seq![c]);
            } else {
                assert(earlier.last() == text[text.len() - 2]);
                assert(!is_whitespace(earlier[earlier.len() - 1]));
                words_are_words(earlier);
                let later = before.drop_last().push(before.last().push(c));
                assert(words(text) =~= later);
                assert(later.drop_last() =~= before.drop_last());
                assert(joined(later) =~= joined(before).push(c));
                assert(text =~= earlier.push(c));
            }
        }
    } else {
        assert(joined(words(text)) =~= text);
    }
}

/// A text whose words single spaces separate is what joining its words gives.
pub proof fn joining_restores(text: Seq<char>)
    requires
        single_spaced(text),
    ensures
        joined(words(text)) == text,
{
    joined_words_of_prefix(text);
}

/// Joining words separates them by single spaces, and adds no other character.
pub proof fn joined_is_single_spaced(found: Seq<Seq<char>>, kept: spec_fn(char) -> bool)
    requires
        forall|i: int| 0 <= i < found.len() ==> is_word(#[trigger] found[i]),
        forall|i: int, j: int|
            0 <= i < found.len() && 0 <= j < found[i].len() ==> kept(#[trigger] found[i][j]),
    ensures
        single_spaced(joined(found)),
        forall|i: int|
            0 <= i < joined(found).len() ==> (#[trigger] joined(found)[i]) == ' ' || kept(
                joined(found)[i],
            ),
        found.len() > 0 ==> joined(found).len() > 0,
    decreases found.len(),
{
    if found.len() == 1 {
        let word = found[0];
        assert forall|i: int| 0 <= i < word.len() implies !is_whitespace(#[trigger] word[i]) && kept(
            word[i],
        ) by {
            assert(kept(found[0][i]));
        }
        assert(!is_whitespace(word[0]) && !is_whitespace(word[word.len() - 1]));
    } else if found.len() > 1 {
        let earlier = found.drop_last();
        let word = found.last();
        assert forall|i: int, j: int|
            0 <= i < earlier.len() && 0 <= j < earlier[i].len() implies kept(
            #[trigger] earlier[i][j],
        ) by {
            assert(kept(found[i][j]));
        }
        joined_is_single_spaced(earlier, kept);
        let head = joined(earlier);
        let text = head.push(' ') + word;
        assert(joined(found) == text);
        assert(is_word(word)) by {
            assert(is_word(found[found.len() - 1]));
        }
        assert forall|i: int| 0 <= i < text.len() implies ((#[trigger] text[i]) == ' '
            || !is_whitespace(text[i])) && (text[i] == ' ' || kept(text[i])) by {
            if i < head.len() {
                assert(text[i] == head[i]);
            } else if i > head.len() {
                assert(text[i] == word[i - head.len() - 1]);
                assert(kept(found[found.len() - 1][i - head.len() - 1]));
            }
        }
        assert(text[0] == head[0]);
        assert(text.last() == word[word.len() - 1]);
        assert forall|i: int, j: int| 0 <= i < j < text.len() && j == i + 1 implies !((
        #[trigger] text[i]) == ' ' && (#[trigger] text[j]) == ' ') by {
            if j < head.len() {
                assert(text[i] == head[i] && text[j] == head[j]);
            } else if j == head.len() {
                assert(text[i] == head.last());
            } else {
                assert(text[j] == word[j - head.len() - 1]);
                assert(!is_whitespace(word[j - head.len() - 1]));
            }
        }
    }
}

/// Splitting a text gives words of the characters that stand in it.
pub proof fn words_keep(text: Seq<char>, kept: spec_fn(char) -> bool)
    requires
        forall|i: int| 0 <= i < text.len() ==> is_whitespace(#[trigger] text[i]) || kept(text[i]),
    ensures
        forall|i: int, j: int|
            0 <= i < words(text).len() && 0 <= j < words(text)[i].len() ==> kept(
                #[trigger] words(text)[i][j],
            ),
    decreases text.len(),
{
    if text.len() > 0 {
        let earlier = text.drop_last();
        assert forall|i: int| 0 <= i < earlier.len() implies is_whitespace(#[trigger] earlier[i])
            || kept(earlier[i]) by {
            assert(earlier[i] == text[i]);
        }
        words_keep(earlier, kept);
        words_are_words(earlier);
        let before = words(earlier);
        let c = text[text.len() - 1];
        if !is_whitespace(c) {
            assert(kept(c));
            let all = words(text);
            assert forall|i: int, j: int| 0 <= i < all.len() && 0 <= j < all[i].len() implies kept(
                #[trigger] all[i][j],
            ) by {
                if text.len() > 1 && !is_whitespace(text[text.len() - 2]) {
                    assert(earlier.last() == text[text.len() - 2]);
                    if i < before.len() - 1 {
                        assert(all[i][j] == before[i][j]);
                    } else if j < before.last().len() {
                        assert(all[i][j] == before[before.len() - 1][j]);
                    }
                } else if i < before.len() {
                    assert(all[i][j] == before[i][j]);
                }
            }
        }
    }
}

/// Trimming removes white space at both ends and nothing else.
pub proof fn trimming_removes_white_space(text: Seq<char>) -> (ends: (int, int))
    ensures
        0 <= ends.0 <= ends.1 <= text.len(),
        trimmed(text) == text.subrange(ends.0, ends.1),
        forall|i: int| 0 <= i < ends.0 ==> is_whitespace(#[trigger] text[i]),
        forall|i: int| ends.1 <= i < text.len() ==> is_whitespace(#[trigger] text[i]),
        ends.0 < ends.1 ==> !is_whitespace(text[ends.0]) && !is_whitespace(text[ends.1 - 1]),
        trimmed(text).len() == 0 <==> forall|i: int|
            0 <= i < text.len() ==> is_whitespace(#[trigger] text[i]),
{
    let start = leading_space(text);
    let rest = trim_start(text);
    let end = start + trailing_space(rest);
    assert(trim_end(rest) == rest.take(end - start));
    assert(rest.take(end - start) =~= text.subrange(start, end));
    assert forall|i: int| end <= i < text.len() implies is_whitespace(#[trigger] text[i]) by {
        assert(rest[i - start] == text[i]);
    }
    if start < end {
        assert(rest[0] == text[start]);
        assert(rest[end - start - 1] == text[end - 1]);
    }
    if trimmed(text).len() == 0 {
        assert forall|i: int| 0 <= i < text.len() implies is_whitespace(#[trigger] text[i]) by {}
    } else {
        assert(!is_whitespace(text[start]));
    }
    (start, end)
}

proof fn leading_space(text: Seq<char>) -> (start: int)
    ensures
        0 <= start <= text.len(),
        trim_start(text) == text.skip(start),
        forall|i: int| 0 <= i < start ==> is_whitespace(#[trigger] text[i]),
        start < text.len() ==> !is_whitespace(text[start]),
    decreases text.len(),
{
    if text.len() > 0 && is_whitespace(text.first()) {
        let rest = text.drop_first();
        let start = leading_space(rest);
        assert(text.skip(start + 1) =~= rest.skip(start));
        assert forall|i: int| 0 <= i < start + 1 implies is_whitespace(#[trigger] text[i]) by {
            if i > 0 {
                assert(rest[i - 1] == text[i]);
            }
        }
        if start + 1 < text.len() {
            assert(rest[start] == text[start + 1]);
        }
        start + 1
    } else {
        assert(text.skip(0) =~= text);
        0
    }
}

proof fn trailing_space(text: Seq<char>) -> (end: int)
    ensures
        0 <= end <= text.len(),
        trim_end(text) == text.take(end),
        forall|i: int| end <= i < text.len() ==> is_whitespace(#[trigger] text[i]),
        end > 0 ==> !is_whitespace(text[end - 1]),
    decreases text.len(),
{
    if text.len() > 0 && is_whitespace(text.last()) {
        let rest = text.drop_last();
        let end = trailing_space(rest);
        assert(text.take(end) =~= rest.take(end));
        assert forall|i: int| end <= i < text.len() implies is_whitespace(#[trigger] text[i]) by {
            if i < text.len() - 1 {
                assert(rest[i] == text[i]);
            }
        }
        if end > 0 {
            assert(rest[end - 1] == text[end - 1]);
        }
        end
    } else {
        assert(text.take(text.len() as int) =~= text);
        text.len() as int
    }
}

proof fn words_with_a_word(head: Seq<char>, word: Seq<char>)
    requires
        is_word(word),
        head.len() == 0 || is_whitespace(head.last()),
    ensures
        words(head + word) == words(head).push(word),
    decreases word.len(),
{
    let text = head + word;
    let shorter = word.drop_last();
    assert(text.drop_last() =~= head + shorter);
    assert(text.last() == word[word.len() - 1]);
    if word.len() == 1 {
        assert(shorter =~= Seq::empty());
        assert(head + shorter =~= head);
        assert(seq![text.last()] =~= word);
        if head.len() > 0 {
            assert(text[text.len() - 2] == head.last());
        }
    } else {
        assert(is_word(shorter)) by {
            assert forall|i: int| 0 <= i < shorter.len() implies !is_whitespace(#[trigger] shorter[i]) by {
                assert(shorter[i] == word[i]);
            }
        }
        words_with_a_word(head, shorter);
        assert(text[text.len() - 2] == word[word.len() - 2]);
        let before = words(head).push(shorter);
        assert(before.drop_last() =~= words(head));
        assert(before.last().push(text.last()) =~= word);
    }
}

/// Joined words are split into the same words again.
pub proof fn splitting_restores(found: Seq<Seq<char>>)
    requires
        forall|i: int| 0 <= i < found.len() ==> is_word(#[trigger] found[i]),
    ensures
        words(joined(found)) == found,
    decreases found.len(),
{
    let none = Seq::<char>::empty();
    if found.len() == 0 {
        assert(words(joined(found)) =~= found);
    } else if found.len() == 1 {
        assert(none + found[0] =~= found[0]);
        words_with_a_word(none, found[0]);
        assert(words(none).push(found[0]) =~= found);
    } else {
        let earlier = found.drop_last();
        assert forall|i: int| 0 <= i < earlier.len() implies is_word(#[trigger] earlier[i]) by {
            assert(earlier[i] == found[i]);
        }
        splitting_restores(earlier);
        let head = joined(earlier).push(' ');
        assert(head.drop_last() =~= joined(earlier));
        assert(words(head) == words(joined(earlier)));
        assert(is_word(found[found.len() - 1]));
        words_with_a_word(head, found.last());
        assert(earlier.push(found.last()) =~= found);
    }
}

/// Space around a text, of whatever kind, does not change its words; between two texts it keeps them
/// apart.
pub proof fn white_space_separates_words(left: Seq<char>, space: char, right: Seq<char>)
    requires
        is_whitespace(space),
    ensures
        words(left.push(space) + right) == words(left) + words(right),
    decreases right.len(),
{
    let head = left.push(space);
    assert(head.drop_last() =~= left);
    assert(words(head) == words(left));
    if right.len() == 0 {
        assert(head + right =~= head);
        assert(words(left) + words(right) =~= words(left));
    } else {
        let shorter = right.drop_last();
        white_space_separates_words(left, space, shorter);
        let text = head + right;
        assert(text.drop_last() =~= head + shorter);
        assert(text.last() == right.last());
        if !is_whitespace(right.last()) {
            if right.len() > 1 {
                assert(text[text.len() - 2] == right[right.len() - 2]);
                if !is_whitespace(right[right.len() - 2]) {
                    words_are_words(shorter);
                    assert(shorter.last() == right[right.len() - 2]);
                    let a = words(left);
                    let b = words(shorter);
                    assert((a + b).drop_last() =~= a + b.drop_last());
                    assert((a + b).last() == b.last());
                    assert((a + b.drop_last()).push(b.last().push(right.last())) =~= a
                        + b.drop_last().push(b.last().push(right.last())));
                } else {
                    assert((words(left) + words(shorter)).push(seq![right.last()]) =~= words(left)
                        + words(shorter).push(seq![right.last()]));
                }
            } else {
                assert(text[text.len() - 2] == space);
                assert(shorter =~= Seq::empty());
                assert((words(left) + words(shorter)).push(seq![right.last()]) =~= words(left)
                    + words(shorter).push(seq![right.last()]));
            }
        }
    }
}

} // verus!
