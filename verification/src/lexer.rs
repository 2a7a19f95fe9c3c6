//! The tokenizer: turns source text into a sequence of tokens.

use vstd::prelude::*;
use vstd::string::*;
use crate::text::{chars_of, decimal_digits, digit_char, int_text, string_of_range, string_with_range, push_char};

verus! {

/// Operators and brackets.
#[derive(Eq, PartialEq, Debug, Copy, Clone, Structural)]
pub enum Operator {
    Plus,
    Minus,
    Multiply,
    Divide,
    BitShiftLeft,
    BitShiftRight,
    Not,
    Equals,
    NotEquals,
    OpenParen,
    CloseParen,
}

/// A floating point literal, held as the text that the source wrote for it
/// (digits, an optional `.` with digits, an optional `e` with digits).
#[derive(PartialEq, Eq, Debug, Clone)]
pub struct Float(pub String);

/// A token of the language.
#[derive(PartialEq, Eq, Debug, Clone)]
pub enum Token {
    LiteralFloat(Float),
    LiteralInteger(i128),
    Operator(Operator),
    Identifier(String),
    Comma,
}

/// The mathematical value of a token: strings are taken by their characters.
pub enum TokenModel {
    LiteralFloat(Seq<char>),
    LiteralInteger(int),
    Operator(Operator),
    Identifier(Seq<char>),
    Comma,
}

impl View for Token {
    type V = TokenModel;

    open spec fn view(&self) -> TokenModel {
        match self {
            Token::LiteralFloat(f) => TokenModel::LiteralFloat(f.0@),
            Token::LiteralInteger(i) => TokenModel::LiteralInteger(*i as int),
            Token::Operator(o) => TokenModel::Operator(*o),
            Token::Identifier(s) => TokenModel::Identifier(s@),
            Token::Comma => TokenModel::Comma,
        }
    }
}

/// The models of a sequence of tokens.
pub open spec fn tokens_view(v: Seq<Token>) -> Seq<TokenModel> {
    v.map_values(|t: Token| t@)
}

pub open spec fn is_digit(c: char) -> bool {
    '0' <= c && c <= '9'
}

pub open spec fn is_ident_start(c: char) -> bool {
    ('a' <= c && c <= 'z') || ('A' <= c && c <= 'Z') || c == '_'
}

pub open spec fn is_ident_char(c: char) -> bool {
    is_ident_start(c) || is_digit(c)
}

/// Unicode's White_Space property, the set that `char::is_whitespace` tests.
pub open spec fn is_whitespace(c: char) -> bool {
    ('\u{9}' <= c && c <= '\u{d}') || c == ' ' || c == '\u{85}' || c == '\u{a0}' || c
        == '\u{1680}' || ('\u{2000}' <= c && c <= '\u{200a}') || c == '\u{2028}' || c
        == '\u{2029}' || c == '\u{202f}' || c == '\u{205f}' || c == '\u{3000}'
}

pub open spec fn digit_value(c: char) -> int {
    (c as int) - ('0' as int)
}

/// The number that a string of decimal digits denotes.
pub open spec fn decimal_value(t: Seq<char>) -> int
    decreases t.len(),
{
    if t.len() == 0 {
        0
    } else {
        decimal_value(t.drop_last()) * 10 + digit_value(t.last())
    }
}

pub open spec fn all_digits(t: Seq<char>) -> bool {
    forall|k: int| 0 <= k < t.len() ==> is_digit(#[trigger] t[k])
}

/// Writing a natural number in decimal, as `int.__str__` does, and reading the
/// digits back, as a number literal is read, gives the number again; the text
/// is a non-empty run of digits. A negative int is written as `-` and the
/// digits of its size.
pub proof fn law_decimal_round_trip(n: nat)
    ensures
        decimal_digits(n).len() >= 1,
        all_digits(decimal_digits(n)),
        decimal_value(decimal_digits(n)) == n,
        int_text(-(n as int)) == (if n == 0 { decimal_digits(0) } else { seq!['-'] + decimal_digits(n) }),
    decreases n,
{
    let k = n % 10;
    assert(is_digit(digit_char(k as int)) && digit_value(digit_char(k as int)) == k);
    if n >= 10 {
        law_decimal_round_trip(n / 10);
        let d = decimal_digits(n / 10);
        let e = d.push(digit_char(k as int));
        assert(e.drop_last() =~= d);
        assert(decimal_digits(n) == e);
        assert(decimal_value(e) == decimal_value(d) * 10 + k);
        assert(n == (n / 10) * 10 + k) by (nonlinear_arith)
            requires
                k == n % 10,
        ;
    } else {
        let e = seq![digit_char(n as int)];
        assert(e.drop_last() =~= Seq::<char>::empty());
        assert(decimal_value(Seq::<char>::empty()) == 0);
        assert(e.last() == digit_char(n as int));
        assert(decimal_value(e) == digit_value(digit_char(n as int)));
        assert(digit_value(digit_char(n as int)) == n);
    }
}

/// The position after the run of digits that starts at `i`.
pub open spec fn scan_digits(s: Seq<char>, i: int) -> int
    decreases s.len() - i,
{
    if 0 <= i < s.len() && is_digit(s[i]) {
        scan_digits(s, i + 1)
    } else {
        i
    }
}

/// The position after `c` if `c` stands at `i`, else `i`.
pub open spec fn scan_char(s: Seq<char>, i: int, c: char) -> int {
    if 0 <= i < s.len() && s[i] == c {
        i + 1
    } else {
        i
    }
}

/// The position after the identifier characters that start at `i`.
pub open spec fn scan_ident(s: Seq<char>, i: int) -> int
    decreases s.len() - i,
{
    if 0 <= i < s.len() && is_ident_char(s[i]) {
        scan_ident(s, i + 1)
    } else {
        i
    }
}

/// Where a number literal starting at `i` ends: digits, then an optional `.`,
/// digits, an optional `e` and digits.
pub open spec fn number_end(s: Seq<char>, i: int) -> int {
    let a = scan_digits(s, i);
    let b = scan_char(s, a, '.');
    let c = scan_digits(s, b);
    let d = scan_char(s, c, 'e');
    scan_digits(s, d)
}

pub open spec fn float_error(text: Seq<char>) -> Seq<char> {
    "Error parsing float value "@ + text
}

pub open spec fn integer_error(text: Seq<char>) -> Seq<char> {
    "Error parsing integer value "@ + text
}

pub open spec fn unrecognized_error(c: char) -> Seq<char> {
    "Unrecognized token "@.push(c)
}

/// The token for the number literal that starts at `i`. A literal with a `.`
/// or an `e` is a float; one with an `e` and no digit after it is refused.
/// Other literals are integers, refused when they exceed `i128::MAX`.
pub open spec fn number_token(s: Seq<char>, i: int) -> Result<TokenModel, Seq<char>> {
    let a = scan_digits(s, i);
    let b = scan_char(s, a, '.');
    let c = scan_digits(s, b);
    let d = scan_char(s, c, 'e');
    let e = scan_digits(s, d);
    let text = s.subrange(i, e);
    if b > a || d > c {
        if d > c && e == d {
            Err(float_error(text))
        } else {
            Ok(TokenModel::LiteralFloat(text))
        }
    } else if decimal_value(text) <= i128::MAX {
        Ok(TokenModel::LiteralInteger(decimal_value(text)))
    } else {
        Err(integer_error(text))
    }
}

/// The operator, bracket or comma at `i` with its length, trying
/// `+ - * / << >> != == !` in that order, then `( ) ,`.
pub open spec fn match_operator(s: Seq<char>, i: int) -> Option<(TokenModel, int)>
    recommends
        0 <= i < s.len(),
{
    let next_is = |c: char| i + 1 < s.len() && s[i + 1] == c;
    if s[i] == '+' {
        Some((TokenModel::Operator(Operator::Plus), 1))
    } else if s[i] == '-' {
        Some((TokenModel::Operator(Operator::Minus), 1))
    } else if s[i] == '*' {
        Some((TokenModel::Operator(Operator::Multiply), 1))
    } else if s[i] == '/' {
        Some((TokenModel::Operator(Operator::Divide), 1))
    } else if s[i] == '<' && next_is('<') {
        Some((TokenModel::Operator(Operator::BitShiftLeft), 2))
    } else if s[i] == '>' && next_is('>') {
        Some((TokenModel::Operator(Operator::BitShiftRight), 2))
    } else if s[i] == '!' && next_is('=') {
        Some((TokenModel::Operator(Operator::NotEquals), 2))
    } else if s[i] == '=' && next_is('=') {
        Some((TokenModel::Operator(Operator::Equals), 2))
    } else if s[i] == '!' {
        Some((TokenModel::Operator(Operator::Not), 1))
    } else if s[i] == '(' {
        Some((TokenModel::Operator(Operator::OpenParen), 1))
    } else if s[i] == ')' {
        Some((TokenModel::Operator(Operator::CloseParen), 1))
    } else if s[i] == ',' {
        Some((TokenModel::Comma, 1))
    } else {
        None
    }
}

/// `t` in front of the tokens of `r`, or the error of `r`.
pub open spec fn cons_token(t: TokenModel, r: Result<Seq<TokenModel>, Seq<char>>) -> Result<
    Seq<TokenModel>,
    Seq<char>,
> {
    match r {
        Ok(ts) => Ok(seq![t] + ts),
        Err(m) => Err(m),
    }
}

/// `acc` in front of the tokens of `r`, or the error of `r`.
pub open spec fn prepend_tokens(acc: Seq<TokenModel>, r: Result<Seq<TokenModel>, Seq<char>>) -> Result<
    Seq<TokenModel>,
    Seq<char>,
> {
    match r {
        Ok(ts) => Ok(acc + ts),
        Err(m) => Err(m),
    }
}

/// The tokens of `s` from position `i` on, or the message of the first error.
pub open spec fn tokenize_from(s: Seq<char>, i: int) -> Result<Seq<TokenModel>, Seq<char>>
    decreases s.len() - i,
{
    if i < 0 || i >= s.len() {
        Ok(seq![])
    } else if is_digit(s[i]) {
        let e = number_end(s, i);
        match number_token(s, i) {
            Err(m) => Err(m),
            Ok(t) => if i < e <= s.len() {
                cons_token(t, tokenize_from(s, e))
            } else {
                Ok(seq![])
            },
        }
    } else if is_whitespace(s[i]) {
        tokenize_from(s, i + 1)
    } else if let Some((t, n)) = match_operator(s, i) {
        if n > 0 {
            cons_token(t, tokenize_from(s, i + n))
        } else {
            Ok(seq![])
        }
    } else if is_ident_start(s[i]) {
        let e = scan_ident(s, i);
        if i < e <= s.len() {
            cons_token(TokenModel::Identifier(s.subrange(i, e)), tokenize_from(s, e))
        } else {
            Ok(seq![])
        }
    } else {
        Err(unrecognized_error(s[i]))
    }
}

/// The tokens of a whole source text.
pub open spec fn spec_tokenize(s: Seq<char>) -> Result<Seq<TokenModel>, Seq<char>> {
    tokenize_from(s, 0)
}

pub proof fn lemma_scan_digits_bounds(s: Seq<char>, i: int)
    requires
        0 <= i <= s.len(),
    ensures
        i <= scan_digits(s, i) <= s.len(),
        forall|k: int| i <= k < scan_digits(s, i) ==> is_digit(#[trigger] s[k]),
        i < s.len() && is_digit(s[i]) ==> i < scan_digits(s, i),
    decreases s.len() - i,
{
    if i < s.len() && is_digit(s[i]) {
        lemma_scan_digits_bounds(s, i + 1);
    }
}

pub proof fn lemma_scan_ident_bounds(s: Seq<char>, i: int)
    requires
        0 <= i <= s.len(),
    ensures
        i <= scan_ident(s, i) <= s.len(),
        i < s.len() && is_ident_char(s[i]) ==> i < scan_ident(s, i),
    decreases s.len() - i,
{
    if i < s.len() && is_ident_char(s[i]) {
        lemma_scan_ident_bounds(s, i + 1);
    }
}

pub proof fn lemma_number_end_bounds(s: Seq<char>, i: int)
    requires
        0 <= i < s.len(),
        is_digit(s[i]),
    ensures
        i < number_end(s, i) <= s.len(),
{
    let a = scan_digits(s, i);
    lemma_scan_digits_bounds(s, i);
    let b = scan_char(s, a, '.');
    lemma_scan_digits_bounds(s, b);
    let c = scan_digits(s, b);
    let d = scan_char(s, c, 'e');
    lemma_scan_digits_bounds(s, d);
}

pub proof fn lemma_decimal_nonneg(t: Seq<char>)
    requires
        all_digits(t),
    ensures
        decimal_value(t) >= 0,
    decreases t.len(),
{
    if t.len() > 0 {
        assert(all_digits(t.drop_last()));
        lemma_decimal_nonneg(t.drop_last());
        assert(is_digit(t[t.len() - 1]));
    }
}

/// The value of a digit string is at least that of each of its prefixes.
pub proof fn lemma_decimal_prefix(t: Seq<char>, k: int)
    requires
        all_digits(t),
        0 <= k <= t.len(),
    ensures
        decimal_value(t.take(k)) <= decimal_value(t),
    decreases t.len(),
{
    if k == t.len() {
        assert(t.take(k) =~= t);
    } else {
        let u = t.drop_last();
        assert(all_digits(u));
        lemma_decimal_prefix(u, k);
        assert(u.take(k) =~= t.take(k));
        lemma_decimal_nonneg(u);
        assert(is_digit(t[t.len() - 1]));
    }
}

fn is_digit_exec(c: char) -> (r: bool)
    ensures
        r == is_digit(c),
{
    '0' <= c && c <= '9'
}

fn is_ident_start_exec(c: char) -> (r: bool)
    ensures
        r == is_ident_start(c),
{
    ('a' <= c && c <= 'z') || ('A' <= c && c <= 'Z') || c == '_'
}

fn is_ident_char_exec(c: char) -> (r: bool)
    ensures
        r == is_ident_char(c),
{
    is_ident_start_exec(c) || is_digit_exec(c)
}

fn is_whitespace_exec(c: char) -> (r: bool)
    ensures
        r == is_whitespace(c),
{
    ('\u{9}' <= c && c <= '\u{d}') || c == ' ' || c == '\u{85}' || c == '\u{a0}' || c
        == '\u{1680}' || ('\u{2000}' <= c && c <= '\u{200a}') || c == '\u{2028}' || c
        == '\u{2029}' || c == '\u{202f}' || c == '\u{205f}' || c == '\u{3000}'
}

fn scan_digits_exec(chars: &Vec<char>, i: usize) -> (r: usize)
    requires
        i <= chars.len(),
    ensures
        r == scan_digits(chars@, i as int),
        i <= r <= chars.len(),
{
    let mut j = i;
    while j < chars.len() && is_digit_exec(chars[j])
        invariant
            i <= j <= chars.len(),
            scan_digits(chars@, i as int) == scan_digits(chars@, j as int),
        decreases chars.len() - j,
    {
        j = j + 1;
    }
    j
}

fn scan_char_exec(chars: &Vec<char>, i: usize, c: char) -> (r: usize)
    requires
        i <= chars.len(),
    ensures
        r == scan_char(chars@, i as int, c),
        i <= r <= chars.len(),
{
    if i < chars.len() && chars[i] == c {
        i + 1
    } else {
        i
    }
}

fn scan_ident_exec(chars: &Vec<char>, i: usize) -> (r: usize)
    requires
        i <= chars.len(),
    ensures
        r == scan_ident(chars@, i as int),
        i <= r <= chars.len(),
{
    let mut j = i;
    while j < chars.len() && is_ident_char_exec(chars[j])
        invariant
            i <= j <= chars.len(),
            scan_ident(chars@, i as int) == scan_ident(chars@, j as int),
        decreases chars.len() - j,
    {
        j = j + 1;
    }
    j
}

/// The value of the digit string `chars[start..end]`, or `None` when it exceeds `i128::MAX`.
fn parse_decimal(chars: &Vec<char>, start: usize, end: usize) -> (r: Option<i128>)
    requires
        start <= end <= chars.len(),
        all_digits(chars@.subrange(start as int, end as int)),
    ensures
        match r {
            Some(v) => v as int == decimal_value(chars@.subrange(start as int, end as int)),
            None => decimal_value(chars@.subrange(start as int, end as int)) > i128::MAX,
        },
{
    let ghost t = chars@.subrange(start as int, end as int);
    let mut acc: i128 = 0;
    let mut k = start;
    assert(chars@.subrange(start as int, start as int) =~= Seq::<char>::empty());
    while k < end
        invariant
            start <= k <= end <= chars.len(),
            t == chars@.subrange(start as int, end as int),
            all_digits(t),
            acc as int == decimal_value(chars@.subrange(start as int, k as int)),
            acc >= 0,
        decreases end - k,
    {
        let c = chars[k];
        assert(t[k - start] == c);
        assert(is_digit(c));
        let d: i128 = (c as u32 - '0' as u32) as i128;
        assert(d as int == digit_value(c));
        let ghost next = chars@.subrange(start as int, k + 1);
        assert(next.drop_last() =~= chars@.subrange(start as int, k as int));
        assert(next =~= t.take(k + 1 - start));
        assert(decimal_value(next) == acc * 10 + d);
        match acc.checked_mul(10) {
            None => {
                proof {
                    lemma_decimal_prefix(t, k + 1 - start);
                }
                return None;
            },
            Some(m) => match m.checked_add(d) {
                None => {
                    proof {
                        lemma_decimal_prefix(t, k + 1 - start);
                    }
                    return None;
                },
                Some(v) => {
                    acc = v;
                },
            },
        }
        k = k + 1;
    }
    Some(acc)
}

/// The token for the number literal at `i`, with the position after it.
fn number_token_exec(chars: &Vec<char>, i: usize) -> (r: (Result<Token, String>, usize))
    requires
        i < chars.len(),
        is_digit(chars@[i as int]),
    ensures
        r.1 == number_end(chars@, i as int),
        match number_token(chars@, i as int) {
            Ok(t) => r.0 matches Ok(tok) && tok@ == t,
            Err(m) => r.0 matches Err(msg) && msg@ == m,
        },
{
    let ghost s = chars@;
    let a = scan_digits_exec(chars, i);
    let b = scan_char_exec(chars, a, '.');
    let c = scan_digits_exec(chars, b);
    let d = scan_char_exec(chars, c, 'e');
    let e = scan_digits_exec(chars, d);
    proof {
        lemma_scan_digits_bounds(s, i as int);
        lemma_scan_digits_bounds(s, b as int);
        lemma_scan_digits_bounds(s, d as int);
    }
    if b > a || d > c {
        if d > c && e == d {
            (Err(string_with_range("Error parsing float value ", chars, i, e)), e)
        } else {
            (Ok(Token::LiteralFloat(Float(string_of_range(chars, i, e)))), e)
        }
    } else {
        assert(b == a && d == c);
        assert(all_digits(chars@.subrange(i as int, e as int)));
        match parse_decimal(chars, i, e) {
            Some(v) => (Ok(Token::LiteralInteger(v)), e),
            None => (Err(string_with_range("Error parsing integer value ", chars, i, e)), e),
        }
    }
}

/// The operator, bracket or comma at `i` and its length.
fn match_operator_exec(chars: &Vec<char>, i: usize) -> (r: Option<(Token, usize)>)
    requires
        i < chars.len(),
    ensures
        match match_operator(chars@, i as int) {
            Some((t, n)) => r matches Some((tok, len)) && tok@ == t && len == n,
            None => r is None,
        },
{
    let c = chars[i];
    let next = if i + 1 < chars.len() {
        chars[i + 1]
    } else {
        ' '
    };
    let has_next = i + 1 < chars.len();
    if c == '+' {
        Some((Token::Operator(Operator::Plus), 1))
    } else if c == '-' {
        Some((Token::Operator(Operator::Minus), 1))
    } else if c == '*' {
        Some((Token::Operator(Operator::Multiply), 1))
    } else if c == '/' {
        Some((Token::Operator(Operator::Divide), 1))
    } else if c == '<' && has_next && next == '<' {
        Some((Token::Operator(Operator::BitShiftLeft), 2))
    } else if c == '>' && has_next && next == '>' {
        Some((Token::Operator(Operator::BitShiftRight), 2))
    } else if c == '!' && has_next && next == '=' {
        Some((Token::Operator(Operator::NotEquals), 2))
    } else if c == '=' && has_next && next == '=' {
        Some((Token::Operator(Operator::Equals), 2))
    } else if c == '!' {
        Some((Token::Operator(Operator::Not), 1))
    } else if c == '(' {
        Some((Token::Operator(Operator::OpenParen), 1))
    } else if c == ')' {
        Some((Token::Operator(Operator::CloseParen), 1))
    } else if c == ',' {
        Some((Token::Comma, 1))
    } else {
        None
    }
}

/// A tokenizer over the characters of one source text.
pub struct Tokenizer {
    index: usize,
    chars: Vec<char>,
    final_result: Vec<Token>,
}

impl Tokenizer {
    /// The characters that this tokenizer reads.
    pub closed spec fn source(&self) -> Seq<char> {
        self.chars@
    }

    /// Nothing has been read or produced yet.
    pub closed spec fn at_start(&self) -> bool {
        self.index == 0 && self.final_result@.len() == 0
    }

    /// A tokenizer at the start of `source`, with no token produced yet.
    pub fn new(source: &str) -> (r: Tokenizer)
        ensures
            r.source() == source@,
            r.at_start(),
    {
        Tokenizer { index: 0, chars: chars_of(source), final_result: Vec::new() }
    }

    /// All the tokens of the source, or the message of the first error: an
    /// unrecognized character, or a number literal that cannot be read.
    pub fn tokenize(self) -> (r: Result<Vec<Token>, String>)
        requires
            self.at_start(),
        ensures
            match spec_tokenize(self.source()) {
                Ok(ts) => r matches Ok(v) && tokens_view(v@) == ts,
                Err(m) => r matches Err(msg) && msg@ == m,
            },
    {
        let ghost s = self.chars@;
        let mut this = self;
        assert(s == this.chars@);
        assert(tokens_view(this.final_result@) =~= Seq::<TokenModel>::empty());
        assert(prepend_tokens(Seq::empty(), tokenize_from(s, 0)) =~= tokenize_from(s, 0)) by {
            match tokenize_from(s, 0) {
                Ok(ts) => {
                    assert(Seq::<TokenModel>::empty() + ts =~= ts);
                },
                Err(m) => {},
            }
        }
        while this.index < this.chars.len()
            invariant
                s == this.chars@,
                s == self.chars@,
                this.index <= s.len(),
                spec_tokenize(s) == prepend_tokens(
                    tokens_view(this.final_result@),
                    tokenize_from(s, this.index as int),
                ),
            decreases s.len() - this.index,
        {
            let i = this.index;
            let ghost acc = tokens_view(this.final_result@);
            let c = this.chars[i];
            if is_digit_exec(c) {
                let (res, e) = number_token_exec(&this.chars, i);
                proof {
                    lemma_number_end_bounds(s, i as int);
                }
                match res {
                    Err(m) => {
                        assert(tokenize_from(s, i as int) == Err::<Seq<TokenModel>, Seq<char>>(m@));
                        assert(spec_tokenize(s) == Err::<Seq<TokenModel>, Seq<char>>(m@));
                        return Err(m);
                    },
                    Ok(t) => {
                        let ghost tm = t@;
                        this.final_result.push(t);
                        this.index = e;
                        proof {
                            assert(tokens_view(this.final_result@) =~= acc.push(tm));
                            match tokenize_from(s, e as int) {
                                Ok(ts) => {
                                    assert(acc + (seq![tm] + ts) =~= acc.push(tm) + ts);
                                },
                                Err(_) => {},
                            }
                        }
                    },
                }
            } else if is_whitespace_exec(c) {
                this.index = i + 1;
            } else {
                match match_operator_exec(&this.chars, i) {
                    Some((t, n)) => {
                        let ghost tm = t@;
                        this.final_result.push(t);
                        this.index = i + n;
                        proof {
                            assert(tokens_view(this.final_result@) =~= acc.push(tm));
                            match tokenize_from(s, i + n) {
                                Ok(ts) => {
                                    assert(acc + (seq![tm] + ts) =~= acc.push(tm) + ts);
                                },
                                Err(_) => {},
                            }
                        }
                    },
                    None => {
                        if is_ident_start_exec(c) {
                            let e = scan_ident_exec(&this.chars, i);
                            proof {
                                lemma_scan_ident_bounds(s, i as int);
                            }
                            let name = string_of_range(&this.chars, i, e);
                            let t = Token::Identifier(name);
                            let ghost tm = t@;
                            this.final_result.push(t);
                            this.index = e;
                            proof {
                                assert(tokens_view(this.final_result@) =~= acc.push(tm));
                                match tokenize_from(s, e as int) {
                                    Ok(ts) => {
                                        assert(acc + (seq![tm] + ts) =~= acc.push(tm) + ts);
                                    },
                                    Err(_) => {},
                                }
                            }
                        } else {
                            let mut msg = String::from_str("Unrecognized token ");
                            push_char(&mut msg, c);
                            assert(tokenize_from(s, i as int) == Err::<Seq<TokenModel>, Seq<char>>(msg@));
                            return Err(msg);
                        }
                    },
                }
            }
        }
        let out = this.final_result;
        Ok(out)
    }
}

/// The tokens of `source`, or the message of the first error.
pub fn tokenize(source: &str) -> (r: Result<Vec<Token>, String>)
    ensures
        match spec_tokenize(source@) {
            Ok(ts) => r matches Ok(v) && tokens_view(v@) == ts,
            Err(m) => r matches Err(msg) && msg@ == m,
        },
{
    Tokenizer::new(source).tokenize()
}

} // verus!
