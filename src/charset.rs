use vstd::prelude::*;
use rand::seq::IndexedRandom;

verus! {

/// Number of symbols a challenge character is drawn from.
pub const SYMBOL_COUNT: usize = 56;

/// The alphabet: digits 2 to 9, upper-case letters but `I` and `O`,
/// lower-case letters but `l` and `o`.
pub open spec fn is_symbol(c: char) -> bool {
    ('2' <= c && c <= '9')
        || ('A' <= c && c <= 'Z' && c != 'I' && c != 'O')
        || ('a' <= c && c <= 'z' && c != 'l' && c != 'o')
}

/// The alphabet in its fixed order.
pub open spec fn alphabet() -> Seq<char> {
    seq![
        '2', '3', '4', '5', '6', '7', '8', '9',
        'A', 'B', 'C', 'D', 'E', 'F', 'G', 'H', 'J', 'K', 'L', 'M',
        'N', 'P', 'Q', 'R', 'S', 'T', 'U', 'V', 'W', 'X', 'Y', 'Z',
        'a', 'b', 'c', 'd', 'e', 'f', 'g', 'h', 'i', 'j', 'k', 'm',
        'n', 'p', 'q', 'r', 's', 't', 'u', 'v', 'w', 'x', 'y', 'z',
    ]
}

fn symbols() -> (r: Vec<char>)
    ensures
        r@ == alphabet(),
        r@.len() == SYMBOL_COUNT,
        forall|i: int| 0 <= i < r@.len() ==> is_symbol(#[trigger] r@[i]),
{
    let r = vec![
        '2', '3', '4', '5', '6', '7', '8', '9',
        'A', 'B', 'C', 'D', 'E', 'F', 'G', 'H', 'J', 'K', 'L', 'M',
        'N', 'P', 'Q', 'R', 'S', 'T', 'U', 'V', 'W', 'X', 'Y', 'Z',
        'a', 'b', 'c', 'd', 'e', 'f', 'g', 'h', 'i', 'j', 'k', 'm',
        'n', 'p', 'q', 'r', 's', 't', 'u', 'v', 'w', 'x', 'y', 'z',
    ];
    r
}

/// Relies on rand's `IndexedRandom::choose` with the thread-local generator:
/// `None` exactly on an empty slice, else one of its elements.
#[verifier::external_body]
fn choose_symbol(symbols: &Vec<char>) -> (r: Option<char>)
    ensures
        r.is_some() <==> symbols@.len() > 0,
        r matches Some(c) ==> symbols@.contains(c),
{
    symbols.choose(&mut rand::rng()).copied()
}

/// Relies on std's `String: FromIterator<char>`: the characters in order.
#[verifier::external_body]
fn string_of(chars: &Vec<char>) -> (r: String)
    ensures
        r@ == chars@,
{
    chars.iter().collect()
}

/// The text whose character `i` is the symbol that draw `i` (any value)
/// picks, counting round the alphabet.
pub fn text_from_draws(draws: &Vec<u32>) -> (r: String)
    ensures
        r@.len() == draws@.len(),
        forall|i: int|
            0 <= i < draws@.len() ==> #[trigger] r@[i] == alphabet()[draws@[i] as int
                % SYMBOL_COUNT as int],
        forall|i: int| 0 <= i < r@.len() ==> is_symbol(#[trigger] r@[i]),
{
    let table = symbols();
    let mut chars: Vec<char> = Vec::new();
    let mut i: usize = 0;
    while i < draws.len()
        invariant
            i <= draws@.len(),
            chars@.len() == i,
            table@ == alphabet(),
            table@.len() == SYMBOL_COUNT,
            forall|j: int| 0 <= j < table@.len() ==> is_symbol(#[trigger] table@[j]),
            forall|j: int|
                0 <= j < i ==> #[trigger] chars@[j] == alphabet()[draws@[j] as int
                    % SYMBOL_COUNT as int],
            forall|j: int| 0 <= j < chars@.len() ==> is_symbol(#[trigger] chars@[j]),
        decreases draws@.len() - i,
    {
        let k = draws[i] as usize % SYMBOL_COUNT;
        chars.push(table[k]);
        i = i + 1;
    }
    string_of(&chars)
}

/// Draws `length` characters independently from the alphabet.
pub fn sample_text(length: u32) -> (r: String)
    ensures
        r@.len() == length,
        forall|i: int| 0 <= i < r@.len() ==> is_symbol(#[trigger] r@[i]),
{
    let alphabet = symbols();
    let mut chars: Vec<char> = Vec::new();
    let mut i: u32 = 0;
    while i < length
        invariant
            i <= length,
            chars@.len() == i,
            alphabet@.len() == SYMBOL_COUNT,
            forall|j: int| 0 <= j < alphabet@.len() ==> is_symbol(#[trigger] alphabet@[j]),
            forall|j: int| 0 <= j < chars@.len() ==> is_symbol(#[trigger] chars@[j]),
        decreases length - i,
    {
        let picked = choose_symbol(&alphabet);
        match picked {
            Some(c) => {
                chars.push(c);
            },
            None => {},
        }
        i = i + 1;
    }
    string_of(&chars)
}

} // verus!
