//! SQL identifiers that are safe to interpolate into statement text.
//!
//! A raw text becomes a `SqlIdentifier` only by passing the rules below, in
//! this order; the first rule that fails decides the error:
//!
//! 1. the text is not empty;
//! 2. it takes at most 63 bytes;
//! 3. it starts with an ASCII letter or an underscore;
//! 4. every character is an ASCII letter, an ASCII digit, `_` or `$`;
//! 5. it is not, whatever its case, one of a fixed set of reserved words.

use vstd::prelude::*;
use vstd::string::StringExecFns;
use vstd::utf8::is_ascii_chars;
use crate::schema::error::ValidationError;
use crate::schema::error::ValidationErrorView;
use crate::text::ascii_lowercase;
use crate::text::byte_len;
use crate::text::char_is_ascii_alphanumeric;
use crate::text::char_is_ascii_letter;
use crate::text::chars_of;
use crate::text::is_ascii_alphanumeric;
use crate::text::is_ascii_letter;
use crate::text::lemma_utf8_len_of_ascii;
use crate::text::same_text;
use crate::text::to_ascii_lowercase;
use crate::text::utf8_len;

verus! {

/// The longest identifier, in bytes, that the database engine keeps whole.
pub const MAX_IDENTIFIER_BYTES: usize = 63;

/// What may stand first in an identifier.
pub open spec fn is_identifier_start(c: char) -> bool {
    is_ascii_letter(c) || c == '_'
}

/// What may stand anywhere in an identifier.
pub open spec fn is_identifier_char(c: char) -> bool {
    is_ascii_alphanumeric(c) || c == '_' || c == '$'
}

/// The leftmost character of `s` that may not stand in an identifier.
pub open spec fn first_foreign_char(s: Seq<char>) -> Option<char>
    decreases s.len(),
{
    if s.len() == 0 {
        None
    } else if !is_identifier_char(s[0]) {
        Some(s[0])
    } else {
        first_foreign_char(s.drop_first())
    }
}

/// Whether the lower-case word `w` is one of the reserved words.
pub open spec fn is_reserved_keyword(w: Seq<char>) -> bool {
    ||| w == "select"@
    ||| w == "insert"@
    ||| w == "update"@
    ||| w == "delete"@
    ||| w == "drop"@
    ||| w == "create"@
    ||| w == "alter"@
    ||| w == "table"@
    ||| w == "index"@
    ||| w == "view"@
    ||| w == "procedure"@
    ||| w == "function"@
    ||| w == "trigger"@
    ||| w == "from"@
    ||| w == "where"@
    ||| w == "join"@
    ||| w == "union"@
    ||| w == "order"@
    ||| w == "group"@
    ||| w == "having"@
    ||| w == "and"@
    ||| w == "or"@
    ||| w == "not"@
    ||| w == "null"@
    ||| w == "true"@
    ||| w == "false"@
}

/// Whether `s` is a reserved word, in any mix of upper and lower case.
pub open spec fn is_reserved_word(s: Seq<char>) -> bool {
    is_reserved_keyword(ascii_lowercase(s))
}

/// The rule that a text breaks.
pub enum IdentifierFault {
    /// The text is empty.
    Empty,
    /// The text takes more than 63 bytes.
    TooLong,
    /// The first character is neither an ASCII letter nor an underscore.
    BadStart,
    /// The character carried here may not stand in an identifier.
    ForeignChar(char),
    /// The text is a reserved word.
    Reserved,
}

/// The first rule that `s` breaks, if it breaks any.
pub open spec fn identifier_fault(s: Seq<char>) -> Option<IdentifierFault> {
    if s.len() == 0 {
        Some(IdentifierFault::Empty)
    } else if utf8_len(s) > MAX_IDENTIFIER_BYTES {
        Some(IdentifierFault::TooLong)
    } else if !is_identifier_start(s[0]) {
        Some(IdentifierFault::BadStart)
    } else {
        match first_foreign_char(s) {
            Some(c) => Some(IdentifierFault::ForeignChar(c)),
            None => if is_reserved_word(s) {
                Some(IdentifierFault::Reserved)
            } else {
                None
            },
        }
    }
}

/// `s` passes every rule.
pub open spec fn is_valid_identifier(s: Seq<char>) -> bool {
    identifier_fault(s) is None
}

/// The reason reported for `s` when it breaks the rule `fault`.
pub open spec fn identifier_fault_reason(fault: IdentifierFault, s: Seq<char>) -> Seq<char> {
    match fault {
        IdentifierFault::Empty => "Identifier cannot be empty"@,
        IdentifierFault::TooLong => "Identifier too long (max 63 characters)"@,
        IdentifierFault::BadStart => "Identifier must start with letter or underscore"@,
        IdentifierFault::ForeignChar(c) => "Invalid character '"@.push(c) + "' in identifier"@,
        IdentifierFault::Reserved => "'"@ + s + "' is a reserved SQL keyword"@,
    }
}

/// What validating `s` yields: nothing to report, or the error for the first
/// rule that `s` breaks.
pub open spec fn identifier_verdict(s: Seq<char>) -> Result<(), ValidationErrorView> {
    match identifier_fault(s) {
        None => Ok(()),
        Some(fault) => Err(
            ValidationErrorView::InvalidIdentifier(identifier_fault_reason(fault, s)),
        ),
    }
}

/// `s` with every double quote written twice.
pub open spec fn double_quotes(s: Seq<char>) -> Seq<char>
    decreases s.len(),
{
    if s.len() == 0 {
        Seq::empty()
    } else if s[0] == '"' {
        seq!['"', '"'] + double_quotes(s.drop_first())
    } else {
        seq![s[0]] + double_quotes(s.drop_first())
    }
}

/// `s` as a delimited identifier: between double quotes, with every double
/// quote inside written twice.
pub open spec fn quote_identifier(s: Seq<char>) -> Seq<char> {
    seq!['"'] + double_quotes(s) + seq!['"']
}

/// Reads the inside of a delimited identifier: a pair of double quotes stands
/// for one, and a double quote without a partner is an error.
pub open spec fn undouble_quotes(body: Seq<char>) -> Option<Seq<char>>
    decreases body.len(),
{
    if body.len() == 0 {
        Some(Seq::empty())
    } else if body[0] != '"' {
        match undouble_quotes(body.drop_first()) {
            Some(rest) => Some(seq![body[0]] + rest),
            None => None,
        }
    } else if body.len() >= 2 && body[1] == '"' {
        match undouble_quotes(body.skip(2)) {
            Some(rest) => Some(seq!['"'] + rest),
            None => None,
        }
    } else {
        None
    }
}

/// Reads `text` as one delimited identifier and gives the name that it
/// denotes, or nothing where `text` is not exactly one delimited identifier.
pub open spec fn read_delimited(text: Seq<char>) -> Option<Seq<char>> {
    if text.len() >= 2 && text[0] == '"' && text.last() == '"' {
        undouble_quotes(text.subrange(1, text.len() - 1))
    } else {
        None
    }
}

/// No foreign character is found exactly when every character may stand in an
/// identifier; one that is found occurs in the text and may not stand there.
pub proof fn lemma_first_foreign_char(s: Seq<char>)
    ensures
        first_foreign_char(s) is None <==> (forall|i: int|
            0 <= i < s.len() ==> is_identifier_char(#[trigger] s[i])),
        first_foreign_char(s) matches Some(c) ==> !is_identifier_char(c) && s.contains(c),
    decreases s.len(),
{
    if s.len() > 0 {
        let rest = s.drop_first();
        lemma_first_foreign_char(rest);
        if is_identifier_char(s[0]) {
            if first_foreign_char(rest) is None {
                assert forall|i: int| 0 <= i < s.len() implies is_identifier_char(
                    #[trigger] s[i],
                ) by {
                    if i > 0 {
                        assert(s[i] == rest[i - 1]);
                    }
                }
            } else {
                let c = first_foreign_char(rest)->0;
                let k = choose|k: int| 0 <= k < rest.len() && rest[k] == c;
                assert(s[k + 1] == c);
            }
        } else {
            assert(s[0] == s[0]);
        }
    }
}

/// A valid identifier is a short, non-empty ASCII text that starts with a
/// letter or an underscore, holds only letters, digits, `_` and `$`, and is no
/// reserved word.
pub proof fn lemma_valid_identifier_shape(s: Seq<char>)
    requires
        is_valid_identifier(s),
    ensures
        0 < s.len() <= MAX_IDENTIFIER_BYTES,
        is_identifier_start(s[0]),
        forall|i: int| 0 <= i < s.len() ==> is_identifier_char(#[trigger] s[i]),
        !is_reserved_word(s),
{
    lemma_first_foreign_char(s);
    assert(is_ascii_chars(s));
    lemma_utf8_len_of_ascii(s);
}

/// The verdict names the first rule that is broken: each fault comes exactly
/// when its rule fails and every rule before it holds.
pub proof fn lemma_fault_is_first_broken_rule(s: Seq<char>)
    ensures
        identifier_fault(s) == Some(IdentifierFault::Empty) <==> s.len() == 0,
        identifier_fault(s) == Some(IdentifierFault::TooLong) <==> s.len() > 0 && utf8_len(s)
            > 63,
        identifier_fault(s) == Some(IdentifierFault::BadStart) <==> s.len() > 0 && utf8_len(s)
            <= 63 && !is_identifier_start(s[0]),
        forall|c: char|
            identifier_fault(s) == Some(IdentifierFault::ForeignChar(c)) <==> s.len() > 0
                && utf8_len(s) <= 63 && is_identifier_start(s[0]) && first_foreign_char(s)
                == Some(c),
        identifier_fault(s) == Some(IdentifierFault::Reserved) <==> s.len() > 0 && utf8_len(s)
            <= 63 && is_identifier_start(s[0]) && (forall|i: int|
            0 <= i < s.len() ==> is_identifier_char(#[trigger] s[i])) && is_reserved_word(s),
        identifier_fault(s) is None <==> s.len() > 0 && utf8_len(s) <= 63 && is_identifier_start(
            s[0],
        ) && (forall|i: int| 0 <= i < s.len() ==> is_identifier_char(#[trigger] s[i]))
            && !is_reserved_word(s),
{
    lemma_first_foreign_char(s);
}

/// A text that holds a character which may not stand in an identifier is
/// never accepted.
pub proof fn lemma_foreign_char_is_rejected(s: Seq<char>, at: int)
    requires
        0 <= at < s.len(),
        !is_identifier_char(s[at]),
    ensures
        !is_valid_identifier(s),
{
    lemma_first_foreign_char(s);
}

/// A text that holds `; DROP TABLE x; --` anywhere is never accepted.
pub proof fn lemma_injection_is_rejected(s: Seq<char>, at: int)
    requires
        0 <= at,
        at + "; DROP TABLE x; --"@.len() <= s.len(),
        s.subrange(at, at + "; DROP TABLE x; --"@.len()) == "; DROP TABLE x; --"@,
    ensures
        !is_valid_identifier(s),
{
    reveal_strlit("; DROP TABLE x; --");
    let attack = "; DROP TABLE x; --"@;
    assert(s[at] == s.subrange(at, at + attack.len())[0]);
    assert(s[at] == ';');
    lemma_foreign_char_is_rejected(s, at);
}

/// Doubling the quotes of a text goes part by part.
pub proof fn lemma_double_quotes_concat(a: Seq<char>, b: Seq<char>)
    ensures
        double_quotes(a + b) == double_quotes(a) + double_quotes(b),
    decreases a.len(),
{
    if a.len() == 0 {
        assert(a + b == b);
    } else {
        lemma_double_quotes_concat(a.drop_first(), b);
        assert((a + b).drop_first() == a.drop_first() + b);
    }
}

/// A text without double quotes is left as it is.
pub proof fn lemma_double_quotes_without_quotes(s: Seq<char>)
    requires
        forall|i: int| 0 <= i < s.len() ==> #[trigger] s[i] != '"',
    ensures
        double_quotes(s) == s,
    decreases s.len(),
{
    if s.len() > 0 {
        let rest = s.drop_first();
        assert forall|i: int| 0 <= i < rest.len() implies #[trigger] rest[i] != '"' by {
            assert(rest[i] == s[i + 1]);
        }
        lemma_double_quotes_without_quotes(rest);
        assert(seq![s[0]] + rest == s);
    }
}

/// Reading a text whose quotes were doubled gives the text back.
pub proof fn lemma_undouble_doubled(s: Seq<char>)
    ensures
        undouble_quotes(double_quotes(s)) == Some(s),
    decreases s.len(),
{
    if s.len() > 0 {
        let rest = s.drop_first();
        lemma_undouble_doubled(rest);
        let d = double_quotes(s);
        if s[0] == '"' {
            assert(d.skip(2) == double_quotes(rest));
            assert(seq!['"'] + rest == s);
        } else {
            assert(d.drop_first() == double_quotes(rest));
            assert(seq![s[0]] + rest == s);
        }
    }
}

/// The quoted form of any text is one delimited identifier, and reading it
/// gives the text back exactly.
pub proof fn lemma_quote_round_trip(s: Seq<char>)
    ensures
        read_delimited(quote_identifier(s)) == Some(s),
{
    let q = quote_identifier(s);
    lemma_undouble_doubled(s);
    assert(q.subrange(1, q.len() - 1) == double_quotes(s));
}

/// The quoted form of a valid identifier is the identifier between two double
/// quotes: no other double quote occurs in it. Reading it as a delimited
/// identifier gives the identifier back.
pub proof fn lemma_quote_valid_identifier(s: Seq<char>)
    requires
        is_valid_identifier(s),
    ensures
        quote_identifier(s) == seq!['"'] + s + seq!['"'],
        forall|i: int| 0 <= i < s.len() ==> #[trigger] s[i] != '"',
        read_delimited(quote_identifier(s)) == Some(s),
{
    lemma_valid_identifier_shape(s);
    assert forall|i: int| 0 <= i < s.len() implies #[trigger] s[i] != '"' by {
        assert(is_identifier_char(s[i]));
    }
    lemma_double_quotes_without_quotes(s);
    lemma_quote_round_trip(s);
}

/// The leftmost character of `chars` that may not stand in an identifier.
pub fn find_foreign_char(chars: &Vec<char>) -> (r: Option<char>)
    ensures
        r == first_foreign_char(chars@),
{
    let mut i: usize = 0;
    assert(chars@.skip(0) == chars@);
    while i < chars.len()
        invariant
            i <= chars.len(),
            first_foreign_char(chars@) == first_foreign_char(chars@.skip(i as int)),
        decreases chars.len() - i,
    {
        let c = chars[i];
        if !char_is_ascii_alphanumeric(c) && c != '_' && c != '$' {
            return Some(c);
        }
        proof {
            assert(chars@.skip(i as int).drop_first() == chars@.skip(i as int + 1));
        }
        i += 1;
    }
    None
}

/// Whether the lower-case word `word` is one of the reserved words.
pub fn keyword_is_reserved(word: &Vec<char>) -> (r: bool)
    ensures
        r == is_reserved_keyword(word@),
{
    same_text(word, "select")
        || same_text(word, "insert")
        || same_text(word, "update")
        || same_text(word, "delete")
        || same_text(word, "drop")
        || same_text(word, "create")
        || same_text(word, "alter")
        || same_text(word, "table")
        || same_text(word, "index")
        || same_text(word, "view")
        || same_text(word, "procedure")
        || same_text(word, "function")
        || same_text(word, "trigger")
        || same_text(word, "from")
        || same_text(word, "where")
        || same_text(word, "join")
        || same_text(word, "union")
        || same_text(word, "order")
        || same_text(word, "group")
        || same_text(word, "having")
        || same_text(word, "and")
        || same_text(word, "or")
        || same_text(word, "not")
        || same_text(word, "null")
        || same_text(word, "true")
        || same_text(word, "false")
}

/// Checks `identifier` against the rules, in their order, and reports the
/// first one that it breaks.
pub fn validate_sql_identifier(identifier: &str) -> (r: Result<(), ValidationError>)
    ensures
        r is Ok <==> is_valid_identifier(identifier@),
        match r {
            Ok(_) => identifier_verdict(identifier@) is Ok,
            Err(e) => identifier_verdict(identifier@) == Err::<(), ValidationErrorView>(e@),
        },
{
    if identifier.is_empty() {
        return Err(
            ValidationError::InvalidIdentifier(String::from_str("Identifier cannot be empty")),
        );
    }
    if byte_len(identifier) > MAX_IDENTIFIER_BYTES {
        return Err(
            ValidationError::InvalidIdentifier(
                String::from_str("Identifier too long (max 63 characters)"),
            ),
        );
    }
    let chars = chars_of(identifier);
    let first = chars[0];
    if !char_is_ascii_letter(first) && first != '_' {
        return Err(
            ValidationError::InvalidIdentifier(
                String::from_str("Identifier must start with letter or underscore"),
            ),
        );
    }
    match find_foreign_char(&chars) {
        Some(c) => {
            let mut reason = String::from_str("Invalid character '");
            reason.push(c);
            reason.append("' in identifier");
            return Err(ValidationError::InvalidIdentifier(reason));
        },
        None => {},
    }
    let lowered = to_ascii_lowercase(&chars);
    if keyword_is_reserved(&lowered) {
        let mut reason = String::from_str("'");
        reason.append(identifier);
        reason.append("' is a reserved SQL keyword");
        return Err(ValidationError::InvalidIdentifier(reason));
    }
    Ok(())
}

/// An SQL identifier that has passed validation.
///
/// The only way to make one is `SqlIdentifier::new`, so every value of this
/// type holds a text for which `is_valid_identifier` is true.
#[derive(Debug, PartialEq, Eq)]
pub struct SqlIdentifier(String);

impl Clone for SqlIdentifier {
    fn clone(&self) -> (r: Self)
        ensures
            r@ == self@,
    {
        proof {
            use_type_invariant(self);
        }
        SqlIdentifier(self.0.clone())
    }
}

impl View for SqlIdentifier {
    type V = Seq<char>;

    closed spec fn view(&self) -> Seq<char> {
        self.0@
    }
}

impl SqlIdentifier {
    #[verifier::type_invariant]
    spec fn well_formed(&self) -> bool {
        is_valid_identifier(self.0@)
    }

    /// Validates `identifier` and, where it passes, keeps it.
    pub fn new(identifier: &str) -> (r: Result<Self, ValidationError>)
        ensures
            match r {
                Ok(id) => id@ == identifier@ && is_valid_identifier(identifier@),
                Err(e) => identifier_verdict(identifier@) == Err::<(), ValidationErrorView>(
                    e@,
                ),
            },
    {
        match validate_sql_identifier(identifier) {
            Ok(_) => Ok(SqlIdentifier(String::from_str(identifier))),
            Err(e) => Err(e),
        }
    }

    /// The identifier between double quotes, ready to stand in statement
    /// text; a double quote inside would be written twice.
    pub fn escaped(&self) -> (r: String)
        ensures
            is_valid_identifier(self@),
            r@ == quote_identifier(self@),
            r@ == seq!['"'] + self@ + seq!['"'],
    {
        proof {
            use_type_invariant(self);
            lemma_quote_valid_identifier(self@);
        }
        let chars = chars_of(self.0.as_str());
        let mut out = String::from_str("\"");
        proof {
            reveal_strlit("\"");
            assert(out@ == seq!['"'] + double_quotes(chars@.take(0)));
        }
        let mut i: usize = 0;
        while i < chars.len()
            invariant
                i <= chars.len(),
                out@ == seq!['"'] + double_quotes(chars@.take(i as int)),
            decreases chars.len() - i,
        {
            let c = chars[i];
            proof {
                let one = seq![c];
                lemma_double_quotes_concat(chars@.take(i as int), one);
                assert(chars@.take(i as int) + one == chars@.take(i as int + 1));
                assert(one.drop_first() == Seq::<char>::empty());
                assert(double_quotes(one.drop_first()) == Seq::<char>::empty());
                assert(double_quotes(one) == if c == '"' {
                    seq!['"', '"']
                } else {
                    seq![c]
                });
            }
            if c == '"' {
                out.push('"');
                out.push('"');
            } else {
                out.push(c);
            }
            i += 1;
        }
        proof {
            assert(chars@.take(i as int) == chars@);
        }
        out.push('"');
        out
    }

    /// The identifier as it was given.
    pub fn as_str(&self) -> (r: &str)
        ensures
            r@ == self@,
            is_valid_identifier(self@),
    {
        proof {
            use_type_invariant(self);
        }
        self.0.as_str()
    }

    /// The form in which the identifier is shown: its quoted form.
    pub fn to_string(&self) -> (r: String)
        ensures
            r@ == quote_identifier(self@),
    {
        self.escaped()
    }
}

} // verus!
