//! A small command-line parser built around one callback per flag.
//!
//! A flag is one option prefixed with one or two dashes, optionally with an
//! assignment at the end (`-r`, `--release`, `--profile=release`). An
//! argument is a value passed with a flag (the `release` in
//! `--profile=release` or `--profile release`). Single-character flags take
//! one dash and longer ones two; several short flags can share one dash
//! (`-rp release`, `-rp=release`).

use vstd::prelude::*;
use vstd::string::StringSliceAdditionalSpecFns;
use vstd::utf8::*;

verus! {

broadcast use {encode_utf8_valid_utf8, is_char_boundary_start_end_of_seq};

/// The byte `-`.
pub const DASH: u8 = 0x2d;

/// The byte `=`.
pub const EQUALS: u8 = 0x3d;

/// The byte `\`.
pub const BACKSLASH: u8 = 0x5c;

/// The byte `'`.
pub const SINGLE_QUOTE: u8 = 0x27;

/// The byte `"`.
pub const DOUBLE_QUOTE: u8 = 0x22;

/// How many dashes (none, one or two) start `b`.
pub open spec fn dash_count(b: Seq<u8>) -> nat {
    if b.len() >= 1 && b[0] == DASH {
        if b.len() >= 2 && b[1] == DASH {
            2
        } else {
            1
        }
    } else {
        0
    }
}

/// Scans `b` from `i` on for the last `=` that is neither escaped by a
/// backslash nor inside quotes; `quote` is the quote that is open at `i`,
/// and `last` the position of the last such `=` before `i`.
pub open spec fn equals_scan(b: Seq<u8>, i: int, quote: Option<u8>, last: Option<int>) -> Option<
    int,
>
    decreases b.len() + 2 - i,
{
    if i < 0 || i >= b.len() {
        last
    } else if quote is None {
        if b[i] == BACKSLASH {
            equals_scan(b, i + 2, None, last)
        } else if b[i] == SINGLE_QUOTE || b[i] == DOUBLE_QUOTE {
            equals_scan(b, i + 1, Some(b[i]), last)
        } else if b[i] == EQUALS {
            equals_scan(b, i + 1, None, Some(i))
        } else {
            equals_scan(b, i + 1, None, last)
        }
    } else {
        if b[i] == BACKSLASH {
            equals_scan(b, i + 2, quote, last)
        } else if quote == Some(b[i]) {
            equals_scan(b, i + 1, None, last)
        } else {
            equals_scan(b, i + 1, quote, last)
        }
    }
}

/// Where the assignment in `b` is: its last `=` outside quotes and escapes.
pub open spec fn equals_index(b: Seq<u8>) -> Option<int> {
    equals_scan(b, 0, None, None)
}

/// The first `k` bytes of a UTF-8 sequence being ASCII, `k` is a character
/// boundary.
proof fn lemma_ascii_prefix_boundary(b: Seq<u8>, k: int)
    requires
        valid_utf8(b),
        0 <= k <= b.len(),
        forall|j: int| 0 <= j < k ==> #[trigger] b[j] < 0x80,
    ensures
        is_char_boundary(b, k),
    decreases k,
{
    if k > 0 {
        let rest = pop_first_scalar(b);
        assert(length_of_first_scalar(b) == 1);
        assert(rest =~= b.subrange(1, b.len() as int));
        assert forall|j: int| 0 <= j < k - 1 implies #[trigger] rest[j] < 0x80 by {
            assert(rest[j] == b[j + 1]);
        }
        lemma_ascii_prefix_boundary(rest, k - 1);
    }
}

/// The bytes of `s` from `start` to `end`, where the bytes before `start` are
/// ASCII and `end` is a character boundary.
fn ascii_tail<'a>(s: &'a str, start: usize, end: usize) -> (r: &'a str)
    requires
        start <= end <= s.spec_bytes().len(),
        forall|j: int| 0 <= j < start ==> #[trigger] s.spec_bytes()[j] < 0x80,
        is_char_boundary(s.spec_bytes(), end as int),
    ensures
        r.spec_bytes() == s.spec_bytes().subrange(start as int, end as int),
{
    let b = Ghost(s.spec_bytes());
    proof {
        valid_utf8_split(b@, end as int);
    }
    let (head, _rest) = s.split_at(end);
    proof {
        assert(head.spec_bytes() == b@.subrange(0, end as int));
        assert forall|j: int| 0 <= j < start implies #[trigger] head.spec_bytes()[j] < 0x80 by {
            assert(head.spec_bytes()[j] == b@[j]);
        }
        lemma_ascii_prefix_boundary(head.spec_bytes(), start as int);
    }
    let (_before, tail) = head.split_at(start);
    proof {
        assert(tail.spec_bytes() =~= b@.subrange(start as int, end as int));
    }
    tail
}

/// The bytes of `s` from `start` to `end`, or `None` where that is not a
/// range of whole characters of `s`.
fn substring<'a>(s: &'a str, start: usize, end: usize) -> (r: Option<&'a str>)
    ensures
        r matches Some(sub) ==> start <= end <= s.spec_bytes().len() && sub.spec_bytes()
            == s.spec_bytes().subrange(start as int, end as int),
        start <= end <= s.spec_bytes().len() && is_char_boundary(s.spec_bytes(), start as int)
            && is_char_boundary(
            s.spec_bytes().subrange(start as int, s.spec_bytes().len() as int),
            end - start,
        ) ==> r is Some,
{
    if start <= end && end <= s.as_bytes().len() && s.is_char_boundary(start) {
        let (_before, tail) = s.split_at(start);
        if tail.is_char_boundary(end - start) {
            let (middle, _after) = tail.split_at(end - start);
            proof {
                assert(middle.spec_bytes() =~= s.spec_bytes().subrange(start as int, end as int));
            }
            Some(middle)
        } else {
            None
        }
    } else {
        None
    }
}

/// The bytes of `s` from `start` on, or the empty string where `start` is
/// not the start of a character of `s`.
fn tail_from<'a>(s: &'a str, start: usize) -> (r: &'a str)
    ensures
        start <= s.spec_bytes().len() && is_char_boundary(s.spec_bytes(), start as int) ==> r.spec_bytes()
            == s.spec_bytes().subrange(start as int, s.spec_bytes().len() as int),
{
    let n = s.as_bytes().len();
    proof {
        if start <= n && is_char_boundary(s.spec_bytes(), start as int) {
            let tail = s.spec_bytes().subrange(start as int, n as int);
            valid_utf8_split(s.spec_bytes(), start as int);
            is_char_boundary_start_end_of_seq(tail);
        }
    }
    match substring(s, start, n) {
        Some(tail) => tail,
        None => "",
    }
}

/// `s` without up to `max` leading dashes.
fn trim_dashes<'a>(s: &'a str, max: usize) -> (r: &'a str) {
    let bytes = s.as_bytes();
    let mut start: usize = 0;
    while start < max && start < bytes.len() && bytes[start] == DASH
        invariant
            start <= bytes@.len(),
        decreases max - start,
    {
        start = start + 1;
    }
    match substring(s, start, s.len()) {
        Some(rest) => rest,
        None => s,
    }
}

/// Where the character of `s` that starts at `start` ends.
fn char_end(s: &str, start: usize) -> (r: usize)
    requires
        start < s.spec_bytes().len(),
    ensures
        start < r <= s.spec_bytes().len(),
        is_char_boundary(s.spec_bytes(), r as int),
{
    let n = s.as_bytes().len();
    let mut end = start + 1;
    while end < n && !s.is_char_boundary(end)
        invariant
            start < end <= s.spec_bytes().len(),
        decreases s.spec_bytes().len() - end,
    {
        end = end + 1;
    }
    proof {
        if end == n {
            assert(is_char_boundary(s.spec_bytes(), s.spec_bytes().len() as int));
        }
    }
    end
}

/// Sorts a command-line word into one of the classes below, to make it
/// easier to parse.
#[derive(Debug, PartialEq, Eq)]
pub enum FlagClass<'a> {
    /// A word with one dash. Several short flags may share it.
    Short { flag: &'a str },
    /// A word with two dashes.
    Long { flag: &'a str },
    /// A word with one dash and an assignment.
    ShortAssigned { flag: &'a str, equals_idx: usize },
    /// A word with two dashes and an assignment.
    LongAssigned { flag: &'a str, equals_idx: usize },
    /// A word with no dashes: a subcommand or an argument.
    SubcommandOrArgument { raw: &'a str },
    /// A word with no dashes and an assignment.
    SubcommandOrArgumentAssigned { raw: &'a str, equals_idx: usize },
}

impl<'a> FlagClass<'a> {
    /// True for a short flag (`-r`) or a long flag (`--profile`), with or
    /// without an assignment (`-p=release`).
    pub fn is_flag(&self) -> (r: bool)
        ensures
            r == !(self is SubcommandOrArgument || self is SubcommandOrArgumentAssigned),
    {
        match self {
            FlagClass::Short { .. } => true,
            FlagClass::Long { .. } => true,
            FlagClass::ShortAssigned { .. } => true,
            FlagClass::LongAssigned { .. } => true,
            _ => false,
        }
    }

    /// True for a word with exactly two dashes (`--release`,
    /// `--profile=release`).
    pub fn is_long(&self) -> (r: bool)
        ensures
            r == (self is Long || self is LongAssigned),
    {
        match self {
            FlagClass::Long { .. } => true,
            FlagClass::LongAssigned { .. } => true,
            _ => false,
        }
    }

    /// True for a word with one dash (`-r`, `-p=release`).
    pub fn is_short(&self) -> (r: bool)
        ensures
            r == (self is Short || self is ShortAssigned),
    {
        match self {
            FlagClass::Short { .. } => true,
            FlagClass::ShortAssigned { .. } => true,
            _ => false,
        }
    }

    /// True for a flag assigned within the same word (`-p=release`); false
    /// where the argument comes in the next word (`--profile release`).
    pub fn is_assigned(&self) -> (r: bool)
        ensures
            r == (self is ShortAssigned || self is LongAssigned),
    {
        match self {
            FlagClass::ShortAssigned { .. } => true,
            FlagClass::LongAssigned { .. } => true,
            _ => false,
        }
    }

    /// True for a word without dashes.
    pub fn is_subcommand(&self) -> (r: bool)
        ensures
            r == (self is SubcommandOrArgument || self is SubcommandOrArgumentAssigned),
    {
        match self {
            FlagClass::SubcommandOrArgument { .. } => true,
            FlagClass::SubcommandOrArgumentAssigned { .. } => true,
            _ => false,
        }
    }
}

/// `class` is what [`classify`] makes of the bytes `b`: the dashes pick the
/// kind, the assignment (if any) whether it is assigned and where, and the
/// name is what lies between the dashes and the `=` or the end.
pub open spec fn classified_as(b: Seq<u8>, class: FlagClass) -> bool {
    let d = dash_count(b);
    let e = equals_index(b);
    match class {
        FlagClass::Short { flag } => d == 1 && e is None && flag.spec_bytes() == b.subrange(
            1,
            b.len() as int,
        ),
        FlagClass::Long { flag } => d == 2 && e is None && flag.spec_bytes() == b.subrange(
            2,
            b.len() as int,
        ),
        FlagClass::ShortAssigned { flag, equals_idx } => d == 1 && e == Some(equals_idx as int)
            && flag.spec_bytes() == b.subrange(1, equals_idx as int),
        FlagClass::LongAssigned { flag, equals_idx } => d == 2 && e == Some(equals_idx as int)
            && flag.spec_bytes() == b.subrange(2, equals_idx as int),
        FlagClass::SubcommandOrArgument { raw } => d == 0 && e is None && raw.spec_bytes() == b,
        FlagClass::SubcommandOrArgumentAssigned { raw, equals_idx } => d == 0 && e == Some(
            equals_idx as int,
        ) && raw.spec_bytes() == b.subrange(0, equals_idx as int),
    }
}

/// Classifies one command-line word; see [`FlagClass`].
pub fn classify<'a>(arg: &'a str) -> (r: FlagClass<'a>)
    ensures
        classified_as(arg.spec_bytes(), r),
{
    let bytes = arg.as_bytes();
    let n = bytes.len();
    let num_dashes: usize = if n >= 1 && bytes[0] == DASH {
        if n >= 2 && bytes[1] == DASH {
            2
        } else {
            1
        }
    } else {
        0
    };
    let mut i: usize = 0;
    let mut quote: Option<u8> = None;
    let mut last: Option<usize> = None;
    while i < n
        invariant
            n == bytes@.len(),
            i <= n,
            equals_index(bytes@) == equals_scan(
                bytes@,
                i as int,
                quote,
                match last {
                    Some(e) => Some(e as int),
                    None => None,
                },
            ),
            last matches Some(e) ==> e < i && e < n && bytes@[e as int] == EQUALS,
        decreases n + 2 - i,
    {
        let byte = bytes[i];
        let ghost before = match last {
            Some(e) => Some(e as int),
            None => None,
        };
        proof {
            if i + 1 >= n {
                assert(equals_scan(bytes@, (i + 2) as int, quote, before) == before);
                assert(equals_scan(bytes@, n as int, quote, before) == before);
            }
        }
        match quote {
            None => {
                if byte == BACKSLASH {
                    i = if i + 1 < n {
                        i + 2
                    } else {
                        n
                    };
                } else if byte == SINGLE_QUOTE || byte == DOUBLE_QUOTE {
                    quote = Some(byte);
                    i = i + 1;
                } else if byte == EQUALS {
                    last = Some(i);
                    i = i + 1;
                } else {
                    i = i + 1;
                }
            },
            Some(q) => {
                if byte == BACKSLASH {
                    i = if i + 1 < n {
                        i + 2
                    } else {
                        n
                    };
                } else if byte == q {
                    quote = None;
                    i = i + 1;
                } else {
                    i = i + 1;
                }
            },
        }
    }
    proof {
        assert(arg.spec_bytes() == bytes@);
    }
    match last {
        Some(equals_idx) => {
            proof {
                is_char_boundary_iff_not_is_continuation_byte(bytes@, equals_idx as int);
            }
            if num_dashes == 0 {
                FlagClass::SubcommandOrArgumentAssigned {
                    raw: ascii_tail(arg, 0, equals_idx),
                    equals_idx,
                }
            } else if num_dashes == 1 {
                FlagClass::ShortAssigned { flag: ascii_tail(arg, 1, equals_idx), equals_idx }
            } else {
                FlagClass::LongAssigned { flag: ascii_tail(arg, 2, equals_idx), equals_idx }
            }
        },
        None => {
            if num_dashes == 0 {
                proof {
                    assert(bytes@.subrange(0, n as int) =~= bytes@);
                }
                FlagClass::SubcommandOrArgument { raw: arg }
            } else if num_dashes == 1 {
                FlagClass::Short { flag: ascii_tail(arg, 1, n) }
            } else {
                FlagClass::Long { flag: ascii_tail(arg, 2, n) }
            }
        },
    }
}

/// A type that CLI arguments are parsed into. It keeps every option in its
/// own fields and updates them as [`parse`] hands it flag after flag.
pub trait CliParser<'a>: Sized {
    /// Handles one flag, subcommand or argument, and says whether it was
    /// recognised. Where the flag takes an argument, `ctx.next_argument` reads
    /// it. Answer `NotRecognised` rather than failing: the parser also asks
    /// in order to tell flags and arguments apart.
    fn parse(&mut self, flag: &'a str, class: FlagClass<'a>, ctx: &mut CliParsingCtx<'a, Self>)
        -> ParseResult;

    /// Handles an error found while parsing.
    fn error(&mut self, error: ParseError<'a>);
}

/// Whether [`CliParser::parse`] recognised what it was given.
#[derive(Clone, Copy, PartialEq, Eq, Structural, Debug)]
pub enum ParseResult {
    /// The flag was recognised.
    Recognised,
    /// The flag was not recognised.
    NotRecognised,
}

/// An error found while parsing CLI arguments.
#[derive(Debug)]
pub enum ParseError<'a> {
    /// The user passed a flag that the parser did not recognise.
    UnknownFlag { flag: &'a str },
    /// The user assigned an argument to a flag that takes none.
    UnusedArgument { flag: &'a str, arg: &'a str },
    /// The user passed a word made only of dashes (`-`, `--`).
    NoFlag { num_dashes: u8 },
}

/// How far the parser has got with the current word.
pub enum CliParsingStatus<'a> {
    /// The current word has been parsed as a flag.
    Used,
    /// The current word holds several short flags; those before byte `n`
    /// (counted after the dash) have been parsed.
    UsedBeforeN(usize),
    /// As `UsedBeforeN`, in a word that ends in an assignment.
    UsedBeforeNEquals(usize),
    /// The current word has been parsed as a flag, and holds an argument
    /// after the `=` at the given byte.
    StoppedAtEquals(usize),
    /// The current word has been read as an argument.
    PeekedAsValue(Option<&'a str>),
}

/// What [`CliParser::parse`] is handed besides the flag: the words, where
/// the parser is, and a way to read a flag's argument.
pub struct CliParsingCtx<'a, P: CliParser<'a>> {
    pub args: &'a [&'a str],
    pub idx: usize,
    pub status: CliParsingStatus<'a>,
    pub _ph: core::marker::PhantomData<P>,
}

impl<'a, P: CliParser<'a>> CliParsingCtx<'a, P> {
    /// Reads the argument of the flag just handed out, if it has one: the
    /// text after its `=`, or the next word where that is not a flag and not
    /// something the parser recognises. A word read this way is not handed to
    /// the parser as a flag again.
    pub fn next_argument(&mut self, parser: &mut P) -> (r: Option<&'a str>)
        ensures
            old(self).status matches CliParsingStatus::PeekedAsValue(value) ==> r == value
                && final(self).idx == old(self).idx && final(self).status == old(self).status
                && final(self).args == old(self).args,
            match old(self).status {
                CliParsingStatus::StoppedAtEquals(equals_idx) => {
                    let word = old(self).args@[old(self).idx as int].spec_bytes();
                    old(self).idx < old(self).args@.len() && equals_idx < word.len()
                        && is_char_boundary(word, equals_idx + 1) ==> (r matches Some(value)
                        && value.spec_bytes() == word.subrange(equals_idx + 1, word.len() as int)
                        && final(self).status == CliParsingStatus::PeekedAsValue(r)
                        && final(self).idx == old(self).idx)
                },
                _ => true,
            },
    {
        match self.status {
            CliParsingStatus::Used => self.next_word_argument(parser),
            CliParsingStatus::UsedBeforeN(next) => {
                if self.idx < self.args.len() && next < usize::MAX && next + 1
                    == self.args[self.idx].len() {
                    self.status = CliParsingStatus::Used;
                    self.next_word_argument(parser)
                } else {
                    None
                }
            },
            CliParsingStatus::StoppedAtEquals(equals_idx) => {
                if self.idx < self.args.len() {
                    let word = self.args[self.idx];
                    let res = if equals_idx < word.as_bytes().len() {
                        tail_from(word, equals_idx + 1)
                    } else {
                        ""
                    };
                    self.status = CliParsingStatus::PeekedAsValue(Some(res));
                    Some(res)
                } else {
                    None
                }
            },
            CliParsingStatus::PeekedAsValue(result) => result,
            CliParsingStatus::UsedBeforeNEquals(next) => {
                if self.idx < self.args.len() {
                    let word = self.args[self.idx];
                    let bytes = word.as_bytes();
                    if next < usize::MAX && next + 1 < bytes.len() && bytes[next + 1] == EQUALS {
                        let res = tail_from(word, next + 2);
                        self.status = CliParsingStatus::PeekedAsValue(Some(res));
                        Some(res)
                    } else {
                        None
                    }
                } else {
                    None
                }
            },
        }
    }

    /// Reads the next word as an argument, where it is one.
    fn next_word_argument(&mut self, parser: &mut P) -> (r: Option<&'a str>) {
        if self.idx >= self.args.len() || self.idx + 1 >= self.args.len() {
            return None;
        }
        self.idx = self.idx + 1;
        let word = self.args[self.idx];
        let class = classify(word);
        let val = match class {
            FlagClass::SubcommandOrArgument { raw } => match parser.parse(raw, class, self) {
                ParseResult::NotRecognised => Some(raw),
                ParseResult::Recognised => None,
            },
            FlagClass::SubcommandOrArgumentAssigned { raw, equals_idx: _ } => match parser.parse(
                raw,
                class,
                self,
            ) {
                ParseResult::NotRecognised => Some(word),
                ParseResult::Recognised => None,
            },
            _ => {
                self.idx = self.idx - 1;
                return None;
            },
        };
        self.status = CliParsingStatus::PeekedAsValue(val);
        val
    }
}

/// A bound on the steps that parsing `args` takes: one per byte and three per
/// word, plus one. Each step of [`parse`] moves on by a word or by a
/// character within one, so the bound holds whatever the words are; it only
/// cuts parsing short where a parser moves the context backwards.
fn step_budget(args: &[&str]) -> (r: usize) {
    let mut total: usize = 1;
    let mut i: usize = 0;
    while i < args.len()
        decreases args@.len() - i,
    {
        let cost = args[i].as_bytes().len();
        total = total.saturating_add(cost).saturating_add(3);
        i = i + 1;
    }
    total
}

/// Parses the CLI arguments `args` with `parser`, handing it each flag,
/// subcommand and argument in order, and each error found.
///
/// Short flags that share a dash are handed out one character at a time; an
/// assignment that no flag reads is reported as
/// [`ParseError::UnusedArgument`]; a word of dashes alone as
/// [`ParseError::NoFlag`]; a flag that the parser does not recognise as
/// [`ParseError::UnknownFlag`].
pub fn parse<'a, P: CliParser<'a>>(args: &'a [&'a str], parser: &mut P) {
    let mut ctx: CliParsingCtx<'a, P> = CliParsingCtx {
        args,
        idx: usize::MAX,
        status: CliParsingStatus::Used,
        _ph: core::marker::PhantomData,
    };
    let mut budget = step_budget(args);
    while budget > 0
        decreases budget,
    {
        budget = budget - 1;
        let (flag, class) = match ctx.status {
            CliParsingStatus::StoppedAtEquals(equals_idx) => {
                if ctx.idx >= args.len() {
                    break ;
                }
                let full_arg = args[ctx.idx];
                let before = match substring(full_arg, 0, equals_idx) {
                    Some(before) => before,
                    None => full_arg,
                };
                parser.error(
                    ParseError::UnusedArgument {
                        flag: trim_dashes(before, 2),
                        arg: tail_from(full_arg, equals_idx),
                    },
                );
                ctx.status = CliParsingStatus::Used;
                continue ;
            },
            CliParsingStatus::UsedBeforeN(next) => {
                if ctx.idx >= args.len() {
                    break ;
                }
                let word = tail_from(args[ctx.idx], 1);
                if next >= word.as_bytes().len() {
                    ctx.status = CliParsingStatus::Used;
                    continue ;
                }
                let end = char_end(word, next);
                ctx.status = CliParsingStatus::UsedBeforeN(end);
                let flag = match substring(word, next, end) {
                    Some(flag) => flag,
                    None => {
                        ctx.status = CliParsingStatus::Used;
                        continue ;
                    },
                };
                (flag, FlagClass::Short { flag: word })
            },
            CliParsingStatus::UsedBeforeNEquals(next) => {
                if ctx.idx >= args.len() {
                    break ;
                }
                let word = tail_from(args[ctx.idx], 1);
                let bytes = word.as_bytes();
                if next >= bytes.len() {
                    ctx.status = CliParsingStatus::Used;
                    continue ;
                }
                if bytes[next] == EQUALS {
                    ctx.status = CliParsingStatus::StoppedAtEquals(next + 1);
                    continue ;
                }
                let end = char_end(word, next);
                ctx.status = CliParsingStatus::UsedBeforeNEquals(end);
                let flag = match substring(word, next, end) {
                    Some(flag) => flag,
                    None => {
                        ctx.status = CliParsingStatus::Used;
                        continue ;
                    },
                };
                (flag, FlagClass::ShortAssigned { flag: word, equals_idx: next })
            },
            CliParsingStatus::PeekedAsValue(_) | CliParsingStatus::Used => {
                ctx.idx = ctx.idx.wrapping_add(1);
                if ctx.idx >= args.len() {
                    break ;
                }
                let full_arg = args[ctx.idx];
                let class = classify(full_arg);
                match class {
                    FlagClass::Short { flag } => {
                        let mut chars = flag.chars();
                        if chars.next().is_none() {
                            parser.error(ParseError::NoFlag { num_dashes: 1 });
                            ctx.status = CliParsingStatus::Used;
                            continue ;
                        } else if chars.next().is_none() {
                            ctx.status = CliParsingStatus::Used;
                            (flag, class)
                        } else {
                            ctx.status = CliParsingStatus::UsedBeforeN(0);
                            continue ;
                        }
                    },
                    FlagClass::Long { flag } => {
                        if flag.as_bytes().len() == 0 {
                            parser.error(ParseError::NoFlag { num_dashes: 2 });
                            ctx.status = CliParsingStatus::Used;
                            continue ;
                        }
                        ctx.status = CliParsingStatus::Used;
                        (flag, class)
                    },
                    FlagClass::LongAssigned { flag, equals_idx } => {
                        if flag.as_bytes().len() == 0 {
                            parser.error(ParseError::NoFlag { num_dashes: 2 });
                            ctx.status = CliParsingStatus::Used;
                            continue ;
                        }
                        ctx.status = CliParsingStatus::StoppedAtEquals(equals_idx);
                        (flag, class)
                    },
                    FlagClass::ShortAssigned { flag, equals_idx } => {
                        let mut chars = flag.chars();
                        if chars.next().is_none() {
                            parser.error(ParseError::NoFlag { num_dashes: 1 });
                            ctx.status = CliParsingStatus::Used;
                            continue ;
                        } else if chars.next().is_none() {
                            ctx.status = CliParsingStatus::StoppedAtEquals(equals_idx);
                            (flag, class)
                        } else {
                            ctx.status = CliParsingStatus::UsedBeforeNEquals(0);
                            continue ;
                        }
                    },
                    FlagClass::SubcommandOrArgument { raw } => {
                        ctx.status = CliParsingStatus::Used;
                        (raw, class)
                    },
                    FlagClass::SubcommandOrArgumentAssigned { raw, equals_idx } => {
                        ctx.status = CliParsingStatus::StoppedAtEquals(equals_idx);
                        (raw, class)
                    },
                }
            },
        };
        if parser.parse(flag, class, &mut ctx) == ParseResult::NotRecognised {
            parser.error(ParseError::UnknownFlag { flag });
        }
        if ctx.idx == args.len() {
            break ;
        }
    }
}

} // verus!
