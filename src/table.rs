//! The bracket pairs of the Unicode bidirectional algorithm: the table of
//! pairs, its lookup in the other direction (proved to be the exact inverse),
//! and the facts about them that the conversions rely on.
use vstd::prelude::*;

verus! {

/// The table: for the opening member of a bracket pair, its closing member;
/// `None` for every other character.
pub open spec fn closing_partner(c: char) -> Option<char> {
    match c {
        '\u{0028}' => Some('\u{0029}'),  // LEFT PARENTHESIS
        '\u{005B}' => Some('\u{005D}'),  // LEFT SQUARE BRACKET
        '\u{007B}' => Some('\u{007D}'),  // LEFT CURLY BRACKET
        '\u{0F3A}' => Some('\u{0F3B}'),  // TIBETAN MARK GUG RTAGS GYON
        '\u{0F3C}' => Some('\u{0F3D}'),  // TIBETAN MARK ANG KHANG GYON
        '\u{169B}' => Some('\u{169C}'),  // OGHAM FEATHER MARK
        '\u{2045}' => Some('\u{2046}'),  // LEFT SQUARE BRACKET WITH QUILL
        '\u{207D}' => Some('\u{207E}'),  // SUPERSCRIPT LEFT PARENTHESIS
        '\u{208D}' => Some('\u{208E}'),  // SUBSCRIPT LEFT PARENTHESIS
        '\u{2308}' => Some('\u{2309}'),  // LEFT CEILING
        '\u{230A}' => Some('\u{230B}'),  // LEFT FLOOR
        '\u{2329}' => Some('\u{232A}'),  // LEFT-POINTING ANGLE BRACKET
        '\u{2768}' => Some('\u{2769}'),  // MEDIUM LEFT PARENTHESIS ORNAMENT
        '\u{276A}' => Some('\u{276B}'),  // MEDIUM FLATTENED LEFT PARENTHESIS ORNAMENT
        '\u{276C}' => Some('\u{276D}'),  // MEDIUM LEFT-POINTING ANGLE BRACKET ORNAMENT
        '\u{276E}' => Some('\u{276F}'),  // HEAVY LEFT-POINTING ANGLE QUOTATION MARK ORNAMENT
        '\u{2770}' => Some('\u{2771}'),  // HEAVY LEFT-POINTING ANGLE BRACKET ORNAMENT
        '\u{2772}' => Some('\u{2773}'),  // LIGHT LEFT TORTOISE SHELL BRACKET ORNAMENT
        '\u{2774}' => Some('\u{2775}'),  // MEDIUM LEFT CURLY BRACKET ORNAMENT
        '\u{27C5}' => Some('\u{27C6}'),  // LEFT S-SHAPED BAG DELIMITER
        '\u{27E6}' => Some('\u{27E7}'),  // MATHEMATICAL LEFT WHITE SQUARE BRACKET
        '\u{27E8}' => Some('\u{27E9}'),  // MATHEMATICAL LEFT ANGLE BRACKET
        '\u{27EA}' => Some('\u{27EB}'),  // MATHEMATICAL LEFT DOUBLE ANGLE BRACKET
        '\u{27EC}' => Some('\u{27ED}'),  // MATHEMATICAL LEFT WHITE TORTOISE SHELL BRACKET
        '\u{27EE}' => Some('\u{27EF}'),  // MATHEMATICAL LEFT FLATTENED PARENTHESIS
        '\u{2983}' => Some('\u{2984}'),  // LEFT WHITE CURLY BRACKET
        '\u{2985}' => Some('\u{2986}'),  // LEFT WHITE PARENTHESIS
        '\u{2987}' => Some('\u{2988}'),  // Z NOTATION LEFT IMAGE BRACKET
        '\u{2989}' => Some('\u{298A}'),  // Z NOTATION LEFT BINDING BRACKET
        '\u{298B}' => Some('\u{298C}'),  // LEFT SQUARE BRACKET WITH UNDERBAR
        '\u{298D}' => Some('\u{2990}'),  // LEFT SQUARE BRACKET WITH TICK IN TOP CORNER
        '\u{298F}' => Some('\u{298E}'),  // LEFT SQUARE BRACKET WITH TICK IN BOTTOM CORNER
        '\u{2991}' => Some('\u{2992}'),  // LEFT ANGLE BRACKET WITH DOT
        '\u{2993}' => Some('\u{2994}'),  // LEFT ARC LESS-THAN BRACKET
        '\u{2995}' => Some('\u{2996}'),  // DOUBLE LEFT ARC GREATER-THAN BRACKET
        '\u{2997}' => Some('\u{2998}'),  // LEFT BLACK TORTOISE SHELL BRACKET
        '\u{29D8}' => Some('\u{29D9}'),  // LEFT WIGGLY FENCE
        '\u{29DA}' => Some('\u{29DB}'),  // LEFT DOUBLE WIGGLY FENCE
        '\u{29FC}' => Some('\u{29FD}'),  // LEFT-POINTING CURVED ANGLE BRACKET
        '\u{2E22}' => Some('\u{2E23}'),  // TOP LEFT HALF BRACKET
        '\u{2E24}' => Some('\u{2E25}'),  // BOTTOM LEFT HALF BRACKET
        '\u{2E26}' => Some('\u{2E27}'),  // LEFT SIDEWAYS U BRACKET
        '\u{2E28}' => Some('\u{2E29}'),  // LEFT DOUBLE PARENTHESIS
        '\u{3008}' => Some('\u{3009}'),  // LEFT ANGLE BRACKET
        '\u{300A}' => Some('\u{300B}'),  // LEFT DOUBLE ANGLE BRACKET
        '\u{300C}' => Some('\u{300D}'),  // LEFT CORNER BRACKET
        '\u{300E}' => Some('\u{300F}'),  // LEFT WHITE CORNER BRACKET
        '\u{3010}' => Some('\u{3011}'),  // LEFT BLACK LENTICULAR BRACKET
        '\u{3014}' => Some('\u{3015}'),  // LEFT TORTOISE SHELL BRACKET
        '\u{3016}' => Some('\u{3017}'),  // LEFT WHITE LENTICULAR BRACKET
        '\u{3018}' => Some('\u{3019}'),  // LEFT WHITE TORTOISE SHELL BRACKET
        '\u{301A}' => Some('\u{301B}'),  // LEFT WHITE SQUARE BRACKET
        '\u{FE59}' => Some('\u{FE5A}'),  // SMALL LEFT PARENTHESIS
        '\u{FE5B}' => Some('\u{FE5C}'),  // SMALL LEFT CURLY BRACKET
        '\u{FE5D}' => Some('\u{FE5E}'),  // SMALL LEFT TORTOISE SHELL BRACKET
        '\u{FF08}' => Some('\u{FF09}'),  // FULLWIDTH LEFT PARENTHESIS
        '\u{FF3B}' => Some('\u{FF3D}'),  // FULLWIDTH LEFT SQUARE BRACKET
        '\u{FF5B}' => Some('\u{FF5D}'),  // FULLWIDTH LEFT CURLY BRACKET
        '\u{FF5F}' => Some('\u{FF60}'),  // FULLWIDTH LEFT WHITE PARENTHESIS
        '\u{FF62}' => Some('\u{FF63}'),  // HALFWIDTH LEFT CORNER BRACKET
        _ => None,
    }
}

/// `o` opens and `c` closes one bracket pair of the table.
pub open spec fn is_pair(o: char, c: char) -> bool {
    closing_partner(o) == Some(c)
}

/// `c` is the opening member of some pair.
pub open spec fn is_open(c: char) -> bool {
    closing_partner(c) is Some
}

/// The table read backwards: for the closing member of a bracket pair, its
/// opening member; `None` for every other character. It is the exact
/// inverse of `closing_partner` (see `lemma_partners_inverse`).
pub open spec fn opening_partner(c: char) -> Option<char> {
    match c {
        '\u{0029}' => Some('\u{0028}'),  // RIGHT PARENTHESIS
        '\u{005D}' => Some('\u{005B}'),  // RIGHT SQUARE BRACKET
        '\u{007D}' => Some('\u{007B}'),  // RIGHT CURLY BRACKET
        '\u{0F3B}' => Some('\u{0F3A}'),  // TIBETAN MARK GUG RTAGS GYAS
        '\u{0F3D}' => Some('\u{0F3C}'),  // TIBETAN MARK ANG KHANG GYAS
        '\u{169C}' => Some('\u{169B}'),  // OGHAM REVERSED FEATHER MARK
        '\u{2046}' => Some('\u{2045}'),  // RIGHT SQUARE BRACKET WITH QUILL
        '\u{207E}' => Some('\u{207D}'),  // SUPERSCRIPT RIGHT PARENTHESIS
        '\u{208E}' => Some('\u{208D}'),  // SUBSCRIPT RIGHT PARENTHESIS
        '\u{2309}' => Some('\u{2308}'),  // RIGHT CEILING
        '\u{230B}' => Some('\u{230A}'),  // RIGHT FLOOR
        '\u{232A}' => Some('\u{2329}'),  // RIGHT-POINTING ANGLE BRACKET
        '\u{2769}' => Some('\u{2768}'),  // MEDIUM RIGHT PARENTHESIS ORNAMENT
        '\u{276B}' => Some('\u{276A}'),  // MEDIUM FLATTENED RIGHT PARENTHESIS ORNAMENT
        '\u{276D}' => Some('\u{276C}'),  // MEDIUM RIGHT-POINTING ANGLE BRACKET ORNAMENT
        '\u{276F}' => Some('\u{276E}'),  // HEAVY RIGHT-POINTING ANGLE QUOTATION MARK ORNAMENT
        '\u{2771}' => Some('\u{2770}'),  // HEAVY RIGHT-POINTING ANGLE BRACKET ORNAMENT
        '\u{2773}' => Some('\u{2772}'),  // LIGHT RIGHT TORTOISE SHELL BRACKET ORNAMENT
        '\u{2775}' => Some('\u{2774}'),  // MEDIUM RIGHT CURLY BRACKET ORNAMENT
        '\u{27C6}' => Some('\u{27C5}'),  // RIGHT S-SHAPED BAG DELIMITER
        '\u{27E7}' => Some('\u{27E6}'),  // MATHEMATICAL RIGHT WHITE SQUARE BRACKET
        '\u{27E9}' => Some('\u{27E8}'),  // MATHEMATICAL RIGHT ANGLE BRACKET
        '\u{27EB}' => Some('\u{27EA}'),  // MATHEMATICAL RIGHT DOUBLE ANGLE BRACKET
        '\u{27ED}' => Some('\u{27EC}'),  // MATHEMATICAL RIGHT WHITE TORTOISE SHELL BRACKET
        '\u{27EF}' => Some('\u{27EE}'),  // MATHEMATICAL RIGHT FLATTENED PARENTHESIS
        '\u{2984}' => Some('\u{2983}'),  // RIGHT WHITE CURLY BRACKET
        '\u{2986}' => Some('\u{2985}'),  // RIGHT WHITE PARENTHESIS
        '\u{2988}' => Some('\u{2987}'),  // Z NOTATION RIGHT IMAGE BRACKET
        '\u{298A}' => Some('\u{2989}'),  // Z NOTATION RIGHT BINDING BRACKET
        '\u{298C}' => Some('\u{298B}'),  // RIGHT SQUARE BRACKET WITH UNDERBAR
        '\u{298E}' => Some('\u{298F}'),  // RIGHT SQUARE BRACKET WITH TICK IN BOTTOM CORNER
        '\u{2990}' => Some('\u{298D}'),  // RIGHT SQUARE BRACKET WITH TICK IN TOP CORNER
        '\u{2992}' => Some('\u{2991}'),  // RIGHT ANGLE BRACKET WITH DOT
        '\u{2994}' => Some('\u{2993}'),  // RIGHT ARC GREATER-THAN BRACKET
        '\u{2996}' => Some('\u{2995}'),  // DOUBLE RIGHT ARC LESS-THAN BRACKET
        '\u{2998}' => Some('\u{2997}'),  // RIGHT BLACK TORTOISE SHELL BRACKET
        '\u{29D9}' => Some('\u{29D8}'),  // RIGHT WIGGLY FENCE
        '\u{29DB}' => Some('\u{29DA}'),  // RIGHT DOUBLE WIGGLY FENCE
        '\u{29FD}' => Some('\u{29FC}'),  // RIGHT-POINTING CURVED ANGLE BRACKET
        '\u{2E23}' => Some('\u{2E22}'),  // TOP RIGHT HALF BRACKET
        '\u{2E25}' => Some('\u{2E24}'),  // BOTTOM RIGHT HALF BRACKET
        '\u{2E27}' => Some('\u{2E26}'),  // RIGHT SIDEWAYS U BRACKET
        '\u{2E29}' => Some('\u{2E28}'),  // RIGHT DOUBLE PARENTHESIS
        '\u{3009}' => Some('\u{3008}'),  // RIGHT ANGLE BRACKET
        '\u{300B}' => Some('\u{300A}'),  // RIGHT DOUBLE ANGLE BRACKET
        '\u{300D}' => Some('\u{300C}'),  // RIGHT CORNER BRACKET
        '\u{300F}' => Some('\u{300E}'),  // RIGHT WHITE CORNER BRACKET
        '\u{3011}' => Some('\u{3010}'),  // RIGHT BLACK LENTICULAR BRACKET
        '\u{3015}' => Some('\u{3014}'),  // RIGHT TORTOISE SHELL BRACKET
        '\u{3017}' => Some('\u{3016}'),  // RIGHT WHITE LENTICULAR BRACKET
        '\u{3019}' => Some('\u{3018}'),  // RIGHT WHITE TORTOISE SHELL BRACKET
        '\u{301B}' => Some('\u{301A}'),  // RIGHT WHITE SQUARE BRACKET
        '\u{FE5A}' => Some('\u{FE59}'),  // SMALL RIGHT PARENTHESIS
        '\u{FE5C}' => Some('\u{FE5B}'),  // SMALL RIGHT CURLY BRACKET
        '\u{FE5E}' => Some('\u{FE5D}'),  // SMALL RIGHT TORTOISE SHELL BRACKET
        '\u{FF09}' => Some('\u{FF08}'),  // FULLWIDTH RIGHT PARENTHESIS
        '\u{FF3D}' => Some('\u{FF3B}'),  // FULLWIDTH RIGHT SQUARE BRACKET
        '\u{FF5D}' => Some('\u{FF5B}'),  // FULLWIDTH RIGHT CURLY BRACKET
        '\u{FF60}' => Some('\u{FF5F}'),  // FULLWIDTH RIGHT WHITE PARENTHESIS
        '\u{FF63}' => Some('\u{FF62}'),  // HALFWIDTH RIGHT CORNER BRACKET
        _ => None,
    }
}

/// `c` is the closing member of some pair.
pub open spec fn is_close(c: char) -> bool {
    opening_partner(c) is Some
}

/// The closing counterpart of an opening bracket; any other character is
/// its own image.
pub open spec fn close_of(c: char) -> char {
    match closing_partner(c) {
        Some(d) => d,
        None => c,
    }
}

/// The opening counterpart of a closing bracket; any other character is
/// its own image.
pub open spec fn open_of(c: char) -> char {
    match opening_partner(c) {
        Some(o) => o,
        None => c,
    }
}

/// Reading the table backwards finds exactly its pairs.
pub proof fn lemma_partners_inverse(o: char, c: char)
    ensures
        is_pair(o, c) <==> opening_partner(c) == Some(o),
{
}

/// The table is a strict bijection: no pair maps a character to itself, two
/// pairs share an opening member exactly when they share a closing one, and
/// no character opens one pair and closes another.
pub proof fn lemma_table_bijective(o1: char, c1: char, o2: char, c2: char)
    requires
        is_pair(o1, c1),
        is_pair(o2, c2),
    ensures
        o1 != c1,
        (o1 == o2) == (c1 == c2),
        o1 != c2,
{
    lemma_partners_inverse(o1, c1);
    lemma_partners_inverse(o2, c2);
}

/// For every pair `(o, c)` of the table, `o` converts to `c` and `c`
/// converts back to `o`.
pub proof fn lemma_pair_converts(o: char, c: char)
    requires
        is_pair(o, c),
    ensures
        close_of(o) == c,
        open_of(c) == o,
{
    lemma_partners_inverse(o, c);
}

/// Converting to the closing form and then back to the opening form gives
/// back every opening bracket and every character that is no bracket.
pub proof fn lemma_round_trip(x: char)
    requires
        is_open(x) || (!is_open(x) && !is_close(x)),
    ensures
        open_of(close_of(x)) == x,
{
    if is_open(x) {
        lemma_pair_converts(x, close_of(x));
    }
}

/// A character that is no bracket is left unchanged by both conversions.
pub proof fn lemma_non_bracket_fixed(x: char)
    requires
        !is_open(x),
        !is_close(x),
    ensures
        open_of(x) == x,
        close_of(x) == x,
{
}

/// No character is both an opening and a closing bracket.
pub proof fn lemma_open_close_exclusive(x: char)
    ensures
        !(is_open(x) && is_close(x)),
{
}

/// A character is an opening bracket exactly when the closing conversion
/// changes it, and a closing bracket exactly when the opening conversion
/// changes it.
pub proof fn lemma_class_matches_conversion(x: char)
    ensures
        is_open(x) == (close_of(x) != x),
        is_close(x) == (open_of(x) != x),
{
}

} // verus!
