//! The canonical identifier of a library, derived from its display name.

use vstd::prelude::*;

verus! {

pub open spec fn is_ascii_upper(c: char) -> bool {
    'A' <= c && c <= 'Z'
}

/// The lower-case form of an upper-case ASCII letter; any other character
/// is left as it is.
pub open spec fn ascii_lower(c: char) -> char {
    if is_ascii_upper(c) {
        ((c as u8) + 32) as char
    } else {
        c
    }
}

/// What one character of a display name contributes to its snake-case
/// form: an upper-case letter becomes lower case and, unless it opens the
/// name, is set off by an underscore; a hyphen becomes an underscore.
pub open spec fn snake_piece(c: char, first: bool) -> Seq<char> {
    if is_ascii_upper(c) {
        if first {
            seq![ascii_lower(c)]
        } else {
            seq!['_', ascii_lower(c)]
        }
    } else if c == '-' {
        seq!['_']
    } else {
        seq![c]
    }
}

/// The snake-case form of a display name.
pub open spec fn snake_text(name: Seq<char>) -> Seq<char>
    decreases name.len(),
{
    if name.len() == 0 {
        Seq::empty()
    } else {
        snake_text(name.drop_last()) + snake_piece(name.last(), name.len() == 1)
    }
}

/// The canonical identifier of the library with the display name `name`:
/// its snake-case form, in which a leading `g_` is contracted to `g`.
pub open spec fn crate_name_text(name: Seq<char>) -> Seq<char> {
    let snake = snake_text(name);
    if snake.len() >= 2 && snake[0] == 'g' && snake[1] == '_' {
        seq!['g'] + snake.subrange(2, snake.len() as int)
    } else {
        snake
    }
}

fn to_ascii_lower(c: char) -> (lower: char)
    ensures
        lower == ascii_lower(c),
{
    if 'A' <= c && c <= 'Z' {
        ((c as u8) + 32) as char
    } else {
        c
    }
}

/// Converts a display name to snake case.
fn to_snake(name: &str) -> (snake: String)
    ensures
        snake@ == snake_text(name@),
{
    let len = name.unicode_len();
    let mut snake = String::new();
    let mut i: usize = 0;
    assert(name@.take(0) =~= Seq::<char>::empty());
    while i < len
        invariant
            i <= len,
            len == name@.len(),
            snake@ == snake_text(name@.take(i as int)),
        decreases len - i,
    {
        let c = name.get_char(i);
        proof {
            let next = name@.take(i + 1);
            assert(next.drop_last() =~= name@.take(i as int));
            assert(next.last() == c);
        }
        let ghost before = snake@;
        if 'A' <= c && c <= 'Z' {
            if i != 0 {
                snake.push('_');
            }
            snake.push(to_ascii_lower(c));
        } else if c == '-' {
            snake.push('_');
        } else {
            snake.push(c);
        }
        assert(snake@ =~= before + snake_piece(c, i == 0));
        i += 1;
    }
    assert(name@.take(i as int) =~= name@);
    snake
}

/// Computes the canonical identifier of a library from its display name.
pub fn crate_name(name: &str) -> (ident: String)
    ensures
        ident@ == crate_name_text(name@),
{
    let snake = to_snake(name);
    let len = snake.as_str().unicode_len();
    if len >= 2 && snake.as_str().get_char(0) == 'g' && snake.as_str().get_char(1) == '_' {
        let mut ident = String::new();
        ident.push('g');
        ident.append(snake.as_str().substring_char(2, len));
        assert(ident@ =~= seq!['g'] + snake@.subrange(2, snake@.len() as int));
        ident
    } else {
        snake
    }
}

} // verus!
