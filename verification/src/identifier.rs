//! The request identifier: a short random token drawn from a configurable
//! alphabet, shared by both probes of a run.

use vstd::arithmetic::div_mod::{lemma_add_mod_noop, lemma_mul_mod_noop_left, lemma_small_mod};
use vstd::prelude::*;
use vstd::string::*;
use vstd::utf8::is_ascii_chars;

verus! {

/// Number of characters of every identifier drawn from a non-empty alphabet.
pub const IDENTIFIER_LENGTH: usize = 10;

/// Largest alphabet the random generator indexes with one random byte.
pub const MAX_ALPHABET_LENGTH: usize = 255;

/// Number of digits one position of a large alphabet is drawn with.
pub const DIGITS_PER_SYMBOL: usize = 16;

/// Every character of `id` occurs somewhere in `alphabet`.
pub open spec fn drawn_from(id: Seq<char>, alphabet: Seq<char>) -> bool {
    forall|i: int| 0 <= i < id.len() ==> alphabet.contains(#[trigger] id[i])
}

/// The alphabets the random generator draws from directly: at most
/// `MAX_ALPHABET_LENGTH` characters, all of them ASCII. Repetitions are
/// allowed.
pub open spec fn alphabet_supported(alphabet: Seq<char>) -> bool {
    alphabet.len() <= MAX_ALPHABET_LENGTH && is_ascii_chars(alphabet)
}

/// What the identifier of a run looks like: empty for the empty alphabet,
/// otherwise `IDENTIFIER_LENGTH` characters, each a member of the alphabet.
pub open spec fn is_identifier_for(id: Seq<char>, alphabet: Seq<char>) -> bool {
    &&& alphabet.len() == 0 ==> id == Seq::<char>::empty()
    &&& alphabet.len() > 0 ==> id.len() == IDENTIFIER_LENGTH && drawn_from(id, alphabet)
}

/// The 64 symbols in which positions of a large alphabet are drawn.
pub open spec fn digit_symbols() -> Seq<char> {
    "0123456789ABCDEFGHIJKLMNOPQRSTUVWXYZabcdefghijklmnopqrstuvwxyz-_"@
}

/// The value of a digit: its place among the digit symbols. Any other
/// character counts as zero.
pub open spec fn digit_of(c: char) -> nat {
    match digit_symbols().index_of_first(c) {
        Some(at) => at as nat,
        None => 0,
    }
}

/// The value of the digit at place `at`; past the end every digit is zero.
pub open spec fn digit_at(digits: Seq<char>, at: int) -> nat {
    if 0 <= at < digits.len() {
        digit_of(digits[at])
    } else {
        0
    }
}

/// The first `taken` digits of group `group`, read as a number to the base
/// 64 with the most significant digit first.
pub open spec fn number_in(digits: Seq<char>, group: nat, taken: nat) -> nat
    decreases taken,
{
    if taken == 0 {
        0
    } else {
        number_in(digits, group, (taken - 1) as nat) * 64 + digit_at(
            digits,
            group * DIGITS_PER_SYMBOL + taken - 1,
        )
    }
}

/// The position that group `group` of the digits names in an alphabet of
/// `symbols` characters: the number of the group modulo `symbols`.
pub open spec fn position_in(digits: Seq<char>, symbols: nat, group: nat) -> int {
    number_in(digits, group, DIGITS_PER_SYMBOL as nat) as int % (symbols as int)
}

/// The identifier that `digits` select from `alphabet`: its character number
/// `i` stands at the position that group `i` of the digits names.
pub open spec fn selected(alphabet: Seq<char>, digits: Seq<char>) -> Seq<char> {
    if alphabet.len() == 0 {
        Seq::<char>::empty()
    } else {
        Seq::new(
            IDENTIFIER_LENGTH as nat,
            |i: int| alphabet[position_in(digits, alphabet.len(), i as nat)],
        )
    }
}

/// Draws `size` characters from `alphabet` with `nanoid::format`, fed by
/// `nanoid::rngs::default`.
///
/// Trusted: `format` pushes nothing but `alphabet[k]` for an index inside the
/// alphabet and returns as soon as the string holds `size` bytes. It panics on
/// more than 255 symbols, never returns for no symbol or for `size == 0`, and
/// counts bytes rather than characters, hence the bounds and the restriction
/// to ASCII, for which the two counts agree. `8 * size` must not overflow.
/// Which characters are drawn depends on the random source; nothing is
/// claimed about that, and the loop ends only as far as the source keeps
/// yielding bytes below the alphabet's length.
#[verifier::external_body]
fn draw(alphabet: &Vec<char>, size: usize) -> (id: String)
    requires
        0 < alphabet@.len() <= 255,
        is_ascii_chars(alphabet@),
        0 < size <= usize::MAX / 8,
    ensures
        id@.len() == size,
        drawn_from(id@, alphabet@),
{
    nanoid::format(nanoid::rngs::default, alphabet.as_slice(), size)
}

/// The characters of `alphabet`, in order.
pub fn symbols_of(alphabet: &str) -> (symbols: Vec<char>)
    ensures
        symbols@ == alphabet@,
{
    let mut symbols: Vec<char> = Vec::new();
    for c in it: alphabet.chars()
        invariant
            it.seq() == alphabet@,
            symbols@ == alphabet@.take(it.index()),
    {
        assert(alphabet@.take(it.index() + 1) == alphabet@.take(it.index()).push(c));
        symbols.push(c);
    }
    symbols
}

/// Tells whether the random generator can draw from `alphabet` directly.
pub fn is_supported(alphabet: &str) -> (supported: bool)
    ensures
        supported == alphabet_supported(alphabet@),
{
    alphabet.is_ascii() && alphabet.unicode_len() <= MAX_ALPHABET_LENGTH
}

/// The digit symbols, ready to be drawn from.
fn digit_alphabet() -> (symbols: Vec<char>)
    ensures
        symbols@ == digit_symbols(),
        symbols@.len() == 64,
        is_ascii_chars(symbols@),
{
    let text = "0123456789ABCDEFGHIJKLMNOPQRSTUVWXYZabcdefghijklmnopqrstuvwxyz-_";
    proof {
        reveal_strlit("0123456789ABCDEFGHIJKLMNOPQRSTUVWXYZabcdefghijklmnopqrstuvwxyz-_");
    }
    symbols_of(text)
}

/// The value of the digit `c`.
fn digit_value(symbols: &Vec<char>, c: char) -> (value: usize)
    requires
        symbols@ == digit_symbols(),
        symbols@.len() == 64,
    ensures
        value == digit_of(c),
        value < 64,
{
    let mut at: usize = 0;
    while at < symbols.len()
        invariant
            at <= symbols@.len(),
            symbols@ == digit_symbols(),
            symbols@.len() == 64,
            forall|j: int| 0 <= j < at ==> symbols@[j] != c,
        decreases symbols@.len() - at,
    {
        if symbols[at] == c {
            proof {
                symbols@.index_of_first_ensures(c);
            }
            return at;
        }
        at += 1;
    }
    proof {
        symbols@.index_of_first_ensures(c);
    }
    0
}

/// Selects an identifier from `alphabet` by the digits given: for each of its
/// characters one group of `DIGITS_PER_SYMBOL` digits names the position.
/// With random digits every position is a random number of 96 bits modulo the
/// length of the alphabet, which favours no character by more than one part
/// in `2^96` of that length.
pub fn select(alphabet: &str, digits: &str) -> (id: String)
    ensures
        id@ == selected(alphabet@, digits@),
{
    let symbols: usize = alphabet.unicode_len();
    let mut id = String::new();
    if symbols == 0 {
        return id;
    }
    let base = digit_alphabet();
    let drawn = symbols_of(digits);
    let mut group: usize = 0;
    while group < IDENTIFIER_LENGTH
        invariant
            group <= IDENTIFIER_LENGTH,
            symbols == alphabet@.len(),
            symbols > 0,
            base@ == digit_symbols(),
            base@.len() == 64,
            drawn@ == digits@,
            id@ == selected(alphabet@, digits@).take(group as int),
        decreases IDENTIFIER_LENGTH - group,
    {
        let mut position: usize = 0;
        let mut taken: usize = 0;
        assert(0int % (symbols as int) == 0) by {
            lemma_small_mod(0, symbols as nat);
        }
        while taken < DIGITS_PER_SYMBOL
            invariant
                taken <= DIGITS_PER_SYMBOL,
                group < IDENTIFIER_LENGTH,
                symbols > 0,
                base@ == digit_symbols(),
                base@.len() == 64,
                drawn@ == digits@,
                position == number_in(digits@, group as nat, taken as nat) % (symbols as nat),
            decreases DIGITS_PER_SYMBOL - taken,
        {
            let at: usize = group * DIGITS_PER_SYMBOL + taken;
            let digit: usize = if at < drawn.len() {
                digit_value(&base, drawn[at])
            } else {
                0
            };
            proof {
                let number = number_in(digits@, group as nat, taken as nat) as int;
                lemma_mul_mod_noop_left(number, 64, symbols as int);
                lemma_add_mod_noop((number % (symbols as int)) * 64, digit as int, symbols as int);
                lemma_add_mod_noop(number * 64, digit as int, symbols as int);
            }
            let widened: u128 = (position as u128) * 64 + (digit as u128);
            position = (widened % (symbols as u128)) as usize;
            taken += 1;
        }
        let piece = alphabet.substring_char(position, position + 1);
        id = id.concat(piece);
        group += 1;
        assert(id@ == selected(alphabet@, digits@).take(group as int));
    }
    id
}

/// Any digits select an identifier of the alphabet.
pub proof fn lemma_selected_is_identifier(alphabet: Seq<char>, digits: Seq<char>)
    ensures
        is_identifier_for(selected(alphabet, digits), alphabet),
{
    if alphabet.len() > 0 {
        let id = selected(alphabet, digits);
        assert forall|i: int| 0 <= i < id.len() implies alphabet.contains(#[trigger] id[i]) by {
            let at = position_in(digits, alphabet.len(), i as nat);
            assert(0 <= at < alphabet.len());
            assert(alphabet[at] == id[i]);
        }
    }
}

/// Generates the identifier of a run. An empty alphabet is not an error: it
/// yields the empty identifier. Any other alphabet yields
/// `IDENTIFIER_LENGTH` of its characters: drawn from the alphabet itself
/// where the random generator can take it, otherwise selected by random
/// digits.
pub fn generate(alphabet: &str) -> (id: String)
    ensures
        is_identifier_for(id@, alphabet@),
{
    let symbols = symbols_of(alphabet);
    if symbols.len() == 0 {
        String::new()
    } else if is_supported(alphabet) {
        draw(&symbols, IDENTIFIER_LENGTH)
    } else {
        let digits = draw(&digit_alphabet(), IDENTIFIER_LENGTH * DIGITS_PER_SYMBOL);
        proof {
            lemma_selected_is_identifier(alphabet@, digits@);
        }
        select(alphabet, digits.as_str())
    }
}

} // verus!
