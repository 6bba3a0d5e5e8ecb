//! The built-in negative-word lexicon and its per-word weight table.
//!
//! The weights follow a fixed category rule; the scorer deliberately does
//! not consult them (see [`crate::engine`]), but the table is part of the
//! engine's state and is reproduced here as built.

use vstd::prelude::*;
use crate::views_of;

verus! {

/// The built-in negative words, in the order their pattern identifiers use.
pub open spec fn builtin_words() -> Seq<Seq<char>> {
    seq![
        "충격"@,
        "경악"@,
        "분노"@,
        "논란"@,
        "위기"@,
        "참사"@,
        "최악"@,
        "파국"@,
        "비상"@,
        "막장"@,
        "망신"@,
        "패닉"@,
        "급락"@,
        "폭망"@,
        "죽음"@,
        "살인"@,
        "폭행"@,
        "성범죄"@,
        "혐오"@,
        "갈등"@,
        "비난"@,
        "폭로"@,
        "의혹"@,
        "조작"@,
        "은폐"@,
        "비리"@,
        "부패"@,
        "사퇴"@,
        "탄핵"@,
        "구속"@,
        "징역"@,
        "전쟁"@,
        "도발"@,
        "테러"@,
    ]
}

/// The weight the fixed category rule gives a built-in word: the most
/// sensational words weigh -10, the mild controversy words -3, every other
/// word -5.
pub open spec fn spec_weight(w: Seq<char>) -> int {
    if w == "충격"@ || w == "경악"@ || w == "최악"@ || w == "살인"@ || w == "성범죄"@ {
        -10
    } else if w == "논란"@ || w == "의혹"@ || w == "비난"@ {
        -3
    } else {
        -5
    }
}

/// `table` is the weight table: one entry per built-in word, in lexicon
/// order, each carrying the category-rule weight of its word.
pub open spec fn weight_table_wf(table: Seq<(String, i32)>) -> bool {
    &&& table.len() == builtin_words().len()
    &&& forall|i: int|
        0 <= i < table.len() ==> (#[trigger] table[i]).0@ == builtin_words()[i]
            && table[i].1 == spec_weight(builtin_words()[i])
}

/// Whether a word's view equals a literal's view.
fn word_is(w: &String, lit: &str) -> (r: bool)
    ensures
        r == (w@ == lit@),
{
    let s: String = lit.to_owned();
    *w == s
}

/// The category-rule weight of a word.
fn weight_of(w: &String) -> (r: i32)
    ensures
        r as int == spec_weight(w@),
{
    if word_is(w, "충격") || word_is(w, "경악") || word_is(w, "최악") || word_is(w, "살인")
        || word_is(w, "성범죄") {
        -10
    } else if word_is(w, "논란") || word_is(w, "의혹") || word_is(w, "비난") {
        -3
    } else {
        -5
    }
}

/// The built-in lexicon as a pattern list.
pub fn builtin_lexicon() -> (r: Vec<String>)
    ensures
        views_of(r@) == builtin_words(),
{
    let mut v: Vec<String> = Vec::new();
    v.push("충격".to_owned());
    v.push("경악".to_owned());
    v.push("분노".to_owned());
    v.push("논란".to_owned());
    v.push("위기".to_owned());
    v.push("참사".to_owned());
    v.push("최악".to_owned());
    v.push("파국".to_owned());
    v.push("비상".to_owned());
    v.push("막장".to_owned());
    v.push("망신".to_owned());
    v.push("패닉".to_owned());
    v.push("급락".to_owned());
    v.push("폭망".to_owned());
    v.push("죽음".to_owned());
    v.push("살인".to_owned());
    v.push("폭행".to_owned());
    v.push("성범죄".to_owned());
    v.push("혐오".to_owned());
    v.push("갈등".to_owned());
    v.push("비난".to_owned());
    v.push("폭로".to_owned());
    v.push("의혹".to_owned());
    v.push("조작".to_owned());
    v.push("은폐".to_owned());
    v.push("비리".to_owned());
    v.push("부패".to_owned());
    v.push("사퇴".to_owned());
    v.push("탄핵".to_owned());
    v.push("구속".to_owned());
    v.push("징역".to_owned());
    v.push("전쟁".to_owned());
    v.push("도발".to_owned());
    v.push("테러".to_owned());
    proof {
        assert(views_of(v@) =~= builtin_words());
    }
    v
}

/// The weight table over the built-in lexicon, in lexicon order.
pub fn build_weight_table() -> (r: Vec<(String, i32)>)
    ensures
        weight_table_wf(r@),
{
    let words = builtin_lexicon();
    let mut table: Vec<(String, i32)> = Vec::new();
    let n = words.len();
    for i in 0..n
        invariant
            n == words@.len(),
            views_of(words@) == builtin_words(),
            table@.len() == i,
            forall|j: int|
                0 <= j < i ==> (#[trigger] table@[j]).0@ == builtin_words()[j]
                    && table@[j].1 == spec_weight(builtin_words()[j]),
    {
        let w = words[i].clone();
        let weight = weight_of(&w);
        assert(w@ == builtin_words()[i as int]);
        table.push((w, weight));
    }
    table
}

} // verus!
