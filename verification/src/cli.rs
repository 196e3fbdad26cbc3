//! The interactive command line: how a typed line is split into words and
//! which command it names.
use crate::ipc::DeviceStatus;
use crate::protocol::types::anc_mode_text;
use crate::text::{chars_of, dec_digit, dec_nat, push_char, push_decimal_u64};
use vstd::prelude::*;
use vstd::string::*;

verus! {

// ── Words ──

/// Whether `c` is white space in Unicode's sense (the `White_Space`
/// property that `char::is_whitespace` tests).
pub open spec fn is_space(c: char) -> bool {
    let v = c as u32;
    ||| 0x09 <= v <= 0x0D
    ||| v == 0x20
    ||| v == 0x85
    ||| v == 0xA0
    ||| v == 0x1680
    ||| 0x2000 <= v <= 0x200A
    ||| v == 0x2028
    ||| v == 0x2029
    ||| v == 0x202F
    ||| v == 0x205F
    ||| v == 0x3000
}

/// Whether a character is white space.
pub fn char_is_space(c: char) -> (r: bool)
    ensures
        r == is_space(c),
{
    let v = c as u32;
    (0x09 <= v && v <= 0x0D) || v == 0x20 || v == 0x85 || v == 0xA0 || v == 0x1680 || (0x2000 <= v
        && v <= 0x200A) || v == 0x2028 || v == 0x2029 || v == 0x202F || v == 0x205F || v == 0x3000
}

/// The words of `s` after the word `cur` begun so far and the words `acc`
/// already found: maximal runs of non-space characters, in order.
pub open spec fn words_from(s: Seq<char>, cur: Seq<char>, acc: Seq<Seq<char>>) -> Seq<Seq<char>>
    decreases s.len(),
{
    let done = if cur.len() > 0 {
        acc.push(cur)
    } else {
        acc
    };
    if s.len() == 0 {
        done
    } else if is_space(s[0]) {
        words_from(s.drop_first(), seq![], done)
    } else {
        words_from(s.drop_first(), cur.push(s[0]), acc)
    }
}

/// The words of a line: its maximal runs of non-space characters.
pub open spec fn words(s: Seq<char>) -> Seq<Seq<char>> {
    words_from(s, seq![], seq![])
}

/// Every word is non-empty and holds no white space.
pub open spec fn clean_words(ws: Seq<Seq<char>>) -> bool {
    forall|i: int|
        0 <= i < ws.len() ==> (#[trigger] ws[i]).len() > 0 && forall|j: int|
            0 <= j < ws[i].len() ==> !is_space(ws[i][j])
}

proof fn lemma_words_from_clean(s: Seq<char>, cur: Seq<char>, acc: Seq<Seq<char>>)
    requires
        clean_words(acc),
        forall|j: int| 0 <= j < cur.len() ==> !is_space(cur[j]),
    ensures
        clean_words(words_from(s, cur, acc)),
    decreases s.len(),
{
    let done = if cur.len() > 0 {
        acc.push(cur)
    } else {
        acc
    };
    assert(clean_words(done)) by {
        if cur.len() > 0 {
            assert forall|i: int| 0 <= i < done.len() implies (#[trigger] done[i]).len() > 0
                && forall|j: int| 0 <= j < done[i].len() ==> !is_space(done[i][j]) by {
                if i < acc.len() {
                    assert(done[i] == acc[i]);
                }
            }
        }
    }
    if s.len() > 0 {
        if is_space(s[0]) {
            lemma_words_from_clean(s.drop_first(), seq![], done);
        } else {
            let c2 = cur.push(s[0]);
            assert forall|j: int| 0 <= j < c2.len() implies !is_space(c2[j]) by {
                if j < cur.len() {
                    assert(c2[j] == cur[j]);
                }
            }
            lemma_words_from_clean(s.drop_first(), c2, acc);
        }
    }
}

/// The words of a line are non-empty and hold no white space.
pub proof fn law_words_are_clean(line: Seq<char>)
    ensures
        clean_words(words(line)),
{
    lemma_words_from_clean(line, seq![], seq![]);
}

/// Splits a line into its words.
pub fn split_words(line: &str) -> (r: Vec<String>)
    ensures
        r@.len() == words(line@).len(),
        forall|i: int| 0 <= i < r@.len() ==> (#[trigger] r@[i])@ == words(line@)[i],
{
    let c = chars_of(line);
    let n = c.len();
    let mut acc: Vec<String> = Vec::new();
    let ghost mut acc_view: Seq<Seq<char>> = seq![];
    let mut cur = String::new();
    let mut i: usize = 0;
    assert(c@.subrange(0, n as int) =~= line@);
    assert(cur@ =~= Seq::<char>::empty());
    while i < n
        invariant
            i <= n,
            n == c@.len(),
            c@ == line@,
            acc@.len() == acc_view.len(),
            forall|k: int| 0 <= k < acc@.len() ==> (#[trigger] acc@[k])@ == acc_view[k],
            words_from(c@.subrange(i as int, n as int), cur@, acc_view) == words(line@),
        decreases n - i,
    {
        let ch = c[i];
        let ghost rest = c@.subrange(i as int, n as int);
        let ghost old_cur = cur@;
        let ghost old_acc = acc_view;
        assert(rest.drop_first() =~= c@.subrange(i + 1, n as int));
        assert(rest[0] == ch);
        if char_is_space(ch) {
            if cur.as_str().unicode_len() > 0 {
                let w = cur;
                proof {
                    acc_view = acc_view.push(w@);
                }
                acc.push(w);
                cur = String::new();
                assert(cur@ =~= Seq::<char>::empty());
            } else {
                assert(cur@ =~= Seq::<char>::empty());
            }
            assert(words_from(rest, old_cur, old_acc) == words_from(
                rest.drop_first(),
                seq![],
                acc_view,
            ));
        } else {
            push_char(&mut cur, ch);
            assert(words_from(rest, old_cur, old_acc) == words_from(
                rest.drop_first(),
                cur@,
                acc_view,
            ));
        }
        i += 1;
    }
    assert(c@.subrange(n as int, n as int) =~= Seq::<char>::empty());
    if cur.as_str().unicode_len() > 0 {
        proof {
            acc_view = acc_view.push(cur@);
        }
        acc.push(cur);
    }
    acc
}

// ── Numbers ──

/// Why a number could not be read.
#[derive(Debug, Clone, Copy, PartialEq, Eq, Structural)]
pub enum NumberError {
    /// Nothing to read.
    Empty,
    /// A character that is not a decimal digit.
    InvalidDigit,
    /// More than 255.
    TooLarge,
}

/// The value of the digits `d` read after the value `acc`, left to right:
/// a non-digit is an error at once; so is a value passing 255.
pub open spec fn digits_value(d: Seq<char>, acc: int) -> Result<u8, NumberError>
    decreases d.len(),
{
    if d.len() == 0 {
        Ok(acc as u8)
    } else if !('0' <= d[0] <= '9') {
        Err(NumberError::InvalidDigit)
    } else if acc * 10 + (d[0] as int - 48) > 255 {
        Err(NumberError::TooLarge)
    } else {
        digits_value(d.drop_first(), acc * 10 + (d[0] as int - 48))
    }
}

/// A byte written in decimal, as `u8::from_str` reads it: an optional `+`,
/// then digits.
pub open spec fn u8_value(s: Seq<char>) -> Result<u8, NumberError> {
    if s.len() == 0 {
        Err(NumberError::Empty)
    } else if s.len() == 1 && (s[0] == '+' || s[0] == '-') {
        Err(NumberError::InvalidDigit)
    } else if s[0] == '+' {
        digits_value(s.drop_first(), 0)
    } else {
        digits_value(s, 0)
    }
}

/// Reads a byte written in decimal.
pub fn parse_u8(s: &str) -> (r: Result<u8, NumberError>)
    ensures
        r == u8_value(s@),
{
    let c = chars_of(s);
    let n = c.len();
    if n == 0 {
        return Err(NumberError::Empty);
    }
    if n == 1 && (c[0] == '+' || c[0] == '-') {
        return Err(NumberError::InvalidDigit);
    }
    let mut i: usize = if c[0] == '+' {
        1
    } else {
        0
    };
    let ghost start = i;
    let mut acc: u8 = 0;
    assert(c@.subrange(start as int, n as int) =~= if start == 1 {
        c@.drop_first()
    } else {
        c@
    });
    while i < n
        invariant
            start <= i <= n,
            n == c@.len(),
            c@ == s@,
            u8_value(s@) == digits_value(c@.subrange(i as int, n as int), acc as int),
        decreases n - i,
    {
        let ch = c[i];
        let ghost rest = c@.subrange(i as int, n as int);
        assert(rest.drop_first() =~= c@.subrange(i + 1, n as int));
        assert(rest[0] == ch);
        if !('0' <= ch && ch <= '9') {
            return Err(NumberError::InvalidDigit);
        }
        let d: u8 = (ch as u32 - 48) as u8;
        if acc > 25 || (acc == 25 && d > 5) {
            return Err(NumberError::TooLarge);
        }
        acc = acc * 10 + d;
        i += 1;
    }
    assert(c@.subrange(n as int, n as int) =~= Seq::<char>::empty());
    Ok(acc)
}

proof fn lemma_digits_push(s: Seq<char>, c: char, acc: int)
    requires
        0 <= acc <= 255,
        digits_value(s, acc) is Ok,
    ensures
        digits_value(s.push(c), acc) == ({
            let v = digits_value(s, acc)->Ok_0 as int;
            if !('0' <= c <= '9') {
                Err(NumberError::InvalidDigit)
            } else if v * 10 + (c as int - 48) > 255 {
                Err(NumberError::TooLarge)
            } else {
                Ok((v * 10 + (c as int - 48)) as u8)
            }
        }),
    decreases s.len(),
{
    if s.len() == 0 {
        assert(s.push(c).drop_first() =~= Seq::<char>::empty());
        reveal_with_fuel(digits_value, 2);
    } else {
        let t = s.drop_first();
        assert(s.push(c).drop_first() =~= t.push(c));
        assert(s.push(c)[0] == s[0]);
        let next = acc * 10 + (s[0] as int - 48);
        assert(digits_value(s, acc) == digits_value(t, next));
        assert(digits_value(s.push(c), acc) == digits_value(t.push(c), next));
        lemma_digits_push(t, c, next);
    }
}

proof fn lemma_dec_digits(n: nat)
    requires
        n <= 255,
    ensures
        digits_value(dec_nat(n), 0) == Ok::<u8, NumberError>(n as u8),
        dec_nat(n).len() > 0,
        '0' <= dec_nat(n)[0] <= '9',
    decreases n,
{
    if n < 10 {
        let s = dec_nat(n);
        assert(s == seq![dec_digit(n as int)]);
        assert(s.drop_first() =~= Seq::<char>::empty());
        assert(s[0] as int - 48 == n);
        reveal_with_fuel(digits_value, 2);
    } else {
        lemma_dec_digits(n / 10);
        lemma_digits_push(dec_nat(n / 10), dec_digit((n % 10) as int), 0);
        assert(dec_nat(n)[0] == dec_nat(n / 10)[0]);
    }
}

/// A byte written in decimal reads back as that byte: the command line
/// takes the levels and presets the program prints.
pub proof fn law_byte_text_reads_back(v: u8)
    ensures
        u8_value(dec_nat(v as nat)) == Ok::<u8, NumberError>(v),
{
    lemma_dec_digits(v as nat);
}

impl NumberError {
    /// The message std gives for the error.
    pub fn message(&self) -> (m: &'static str)
        ensures
            m@ == match *self {
                NumberError::Empty => "cannot parse integer from empty string"@,
                NumberError::InvalidDigit => "invalid digit found in string"@,
                NumberError::TooLarge => "number too large to fit in target type"@,
            },
    {
        match self {
            NumberError::Empty => "cannot parse integer from empty string",
            NumberError::InvalidDigit => "invalid digit found in string",
            NumberError::TooLarge => "number too large to fit in target type",
        }
    }
}

// ── Commands ──

/// A line of the interactive command line, read.
#[derive(Debug)]
pub enum CliCommand {
    /// A line with no words.
    Nothing,
    Exit,
    Help,
    Status,
    Watch,
    Clear,
    /// `anc` without a mode.
    AncUsage,
    /// `level` without a level.
    LevelUsage,
    /// `eq` without a preset.
    EqUsage,
    /// `adaptive` without `on`/`off`.
    AdaptiveUsage,
    /// `dual` without `on`/`off`.
    DualUsage,
    SetAnc(String),
    SetLevel(u8),
    SetEq(u8),
    SetAdaptive(bool),
    SetDual(bool),
    /// A level or preset that is not a byte in decimal.
    BadNumber(NumberError),
    /// An unknown command word.
    Unknown(String),
}

/// A command line's meaning, with texts as character sequences.
pub enum CliIntent {
    Nothing,
    Exit,
    Help,
    Status,
    Watch,
    Clear,
    AncUsage,
    LevelUsage,
    EqUsage,
    AdaptiveUsage,
    DualUsage,
    SetAnc(Seq<char>),
    SetLevel(u8),
    SetEq(u8),
    SetAdaptive(bool),
    SetDual(bool),
    BadNumber(NumberError),
    Unknown(Seq<char>),
}

impl View for CliCommand {
    type V = CliIntent;

    open spec fn view(&self) -> CliIntent {
        match self {
            CliCommand::Nothing => CliIntent::Nothing,
            CliCommand::Exit => CliIntent::Exit,
            CliCommand::Help => CliIntent::Help,
            CliCommand::Status => CliIntent::Status,
            CliCommand::Watch => CliIntent::Watch,
            CliCommand::Clear => CliIntent::Clear,
            CliCommand::AncUsage => CliIntent::AncUsage,
            CliCommand::LevelUsage => CliIntent::LevelUsage,
            CliCommand::EqUsage => CliIntent::EqUsage,
            CliCommand::AdaptiveUsage => CliIntent::AdaptiveUsage,
            CliCommand::DualUsage => CliIntent::DualUsage,
            CliCommand::SetAnc(m) => CliIntent::SetAnc(m@),
            CliCommand::SetLevel(l) => CliIntent::SetLevel(*l),
            CliCommand::SetEq(p) => CliIntent::SetEq(*p),
            CliCommand::SetAdaptive(b) => CliIntent::SetAdaptive(*b),
            CliCommand::SetDual(b) => CliIntent::SetDual(*b),
            CliCommand::BadNumber(e) => CliIntent::BadNumber(*e),
            CliCommand::Unknown(w) => CliIntent::Unknown(w@),
        }
    }
}

/// What the words of a line ask for: the first word names the command;
/// `anc`, `level`, `eq`, `adaptive` and `dual` take a second word, and
/// without one ask for their usage; a switch is on only for `on`.
pub open spec fn cli_intent(ws: Seq<Seq<char>>) -> CliIntent {
    if ws.len() == 0 {
        CliIntent::Nothing
    } else {
        let w = ws[0];
        if w == "exit"@ || w == "quit"@ {
            CliIntent::Exit
        } else if w == "help"@ {
            CliIntent::Help
        } else if w == "status"@ {
            CliIntent::Status
        } else if w == "watch"@ {
            CliIntent::Watch
        } else if w == "anc"@ {
            if ws.len() < 2 {
                CliIntent::AncUsage
            } else {
                CliIntent::SetAnc(ws[1])
            }
        } else if w == "level"@ {
            if ws.len() < 2 {
                CliIntent::LevelUsage
            } else {
                match u8_value(ws[1]) {
                    Ok(v) => CliIntent::SetLevel(v),
                    Err(e) => CliIntent::BadNumber(e),
                }
            }
        } else if w == "eq"@ {
            if ws.len() < 2 {
                CliIntent::EqUsage
            } else {
                match u8_value(ws[1]) {
                    Ok(v) => CliIntent::SetEq(v),
                    Err(e) => CliIntent::BadNumber(e),
                }
            }
        } else if w == "adaptive"@ {
            if ws.len() < 2 {
                CliIntent::AdaptiveUsage
            } else {
                CliIntent::SetAdaptive(ws[1] == "on"@)
            }
        } else if w == "dual"@ {
            if ws.len() < 2 {
                CliIntent::DualUsage
            } else {
                CliIntent::SetDual(ws[1] == "on"@)
            }
        } else if w == "clear"@ {
            CliIntent::Clear
        } else {
            CliIntent::Unknown(w)
        }
    }
}

/// What the switch commands mean: `adaptive on` and `dual on` turn the
/// feature on, `adaptive off` and `dual off` turn it off, whatever follows.
pub proof fn law_switch_words(ws: Seq<Seq<char>>)
    requires
        ws.len() >= 2,
    ensures
        ws[0] == "adaptive"@ && ws[1] == "on"@ ==> cli_intent(ws) == CliIntent::SetAdaptive(true),
        ws[0] == "adaptive"@ && ws[1] == "off"@ ==> cli_intent(ws) == CliIntent::SetAdaptive(
            false,
        ),
        ws[0] == "dual"@ && ws[1] == "on"@ ==> cli_intent(ws) == CliIntent::SetDual(true),
        ws[0] == "dual"@ && ws[1] == "off"@ ==> cli_intent(ws) == CliIntent::SetDual(false),
{
    reveal_strlit("adaptive");
    reveal_strlit("dual");
    reveal_strlit("on");
    reveal_strlit("off");
    reveal_strlit("exit");
    reveal_strlit("quit");
    reveal_strlit("help");
    reveal_strlit("status");
    reveal_strlit("watch");
    reveal_strlit("anc");
    reveal_strlit("level");
    reveal_strlit("eq");
    if ws[0] == "adaptive"@ {
        assert(ws[0].len() == 8 && ws[0][0] == 'a');
        assert("exit"@.len() == 4);
        assert("quit"@.len() == 4);
        assert("help"@.len() == 4);
        assert("status"@.len() == 6);
        assert("watch"@.len() == 5);
        assert("anc"@.len() == 3);
        assert("level"@.len() == 5);
        assert("eq"@.len() == 2);
    }
    if ws[0] == "dual"@ {
        assert(ws[0].len() == 4 && ws[0][0] == 'd');
        assert("exit"@[0] == 'e');
        assert("quit"@[0] == 'q');
        assert("help"@[0] == 'h');
        assert("status"@.len() == 6);
        assert("watch"@.len() == 5);
        assert("anc"@.len() == 3);
        assert("level"@.len() == 5);
        assert("eq"@.len() == 2);
    }
}

fn is_word(w: &String, lit: &str) -> (r: bool)
    ensures
        r == (w@ == lit@),
{
    *w == String::from_str(lit)
}

impl CliCommand {
    /// Reads a typed line.
    pub fn parse(line: &str) -> (c: CliCommand)
        ensures
            c@ == cli_intent(words(line@)),
    {
        let ws = split_words(line);
        let ghost sw = words(line@);
        if ws.len() == 0 {
            return CliCommand::Nothing;
        }
        assert(ws@[0]@ == sw[0]);
        let w = &ws[0];
        if is_word(w, "exit") || is_word(w, "quit") {
            CliCommand::Exit
        } else if is_word(w, "help") {
            CliCommand::Help
        } else if is_word(w, "status") {
            CliCommand::Status
        } else if is_word(w, "watch") {
            CliCommand::Watch
        } else if is_word(w, "anc") {
            if ws.len() < 2 {
                CliCommand::AncUsage
            } else {
                assert(ws@[1]@ == sw[1]);
                CliCommand::SetAnc(ws[1].clone())
            }
        } else if is_word(w, "level") {
            if ws.len() < 2 {
                CliCommand::LevelUsage
            } else {
                assert(ws@[1]@ == sw[1]);
                match parse_u8(ws[1].as_str()) {
                    Ok(v) => CliCommand::SetLevel(v),
                    Err(e) => CliCommand::BadNumber(e),
                }
            }
        } else if is_word(w, "eq") {
            if ws.len() < 2 {
                CliCommand::EqUsage
            } else {
                assert(ws@[1]@ == sw[1]);
                match parse_u8(ws[1].as_str()) {
                    Ok(v) => CliCommand::SetEq(v),
                    Err(e) => CliCommand::BadNumber(e),
                }
            }
        } else if is_word(w, "adaptive") {
            if ws.len() < 2 {
                CliCommand::AdaptiveUsage
            } else {
                assert(ws@[1]@ == sw[1]);
                CliCommand::SetAdaptive(is_word(&ws[1], "on"))
            }
        } else if is_word(w, "dual") {
            if ws.len() < 2 {
                CliCommand::DualUsage
            } else {
                assert(ws@[1]@ == sw[1]);
                CliCommand::SetDual(is_word(&ws[1], "on"))
            }
        } else if is_word(w, "clear") {
            CliCommand::Clear
        } else {
            CliCommand::Unknown(w.clone())
        }
    }

    /// Whether the command line should close after this command.
    pub fn exits(&self) -> (r: bool)
        ensures
            r == (self@ is Exit),
    {
        match self {
            CliCommand::Exit => true,
            _ => false,
        }
    }
}

// ── Status ──

/// The status box heading.
pub open spec fn status_heading() -> Seq<Seq<char>> {
    seq![
        "\x1b[1;36m╔═══════════════════════════════════╗\x1b[0m"@,
        "\x1b[1;36m║         SpacePods Status          ║\x1b[0m"@,
        "\x1b[1;36m╚═══════════════════════════════════╝\x1b[0m"@,
    ]
}

/// The battery line: all three levels, both buds, or a single level; none
/// otherwise.
pub open spec fn battery_lines(left: Option<u8>, right: Option<u8>, case: Option<u8>) -> Seq<
    Seq<char>,
> {
    match (left, right, case) {
        (Some(l), Some(r), Some(c)) => seq![
            "  Battery      : L:"@ + dec_nat(l as nat) + "%  R:"@ + dec_nat(r as nat) + "%  Case:"@
                + dec_nat(c as nat) + "%"@,
        ],
        (Some(l), Some(r), None) => seq![
            "  Battery      : L:"@ + dec_nat(l as nat) + "%  R:"@ + dec_nat(r as nat) + "%"@,
        ],
        (Some(b), None, None) => seq!["  Battery      : "@ + dec_nat(b as nat) + "%"@],
        _ => seq![],
    }
}

/// How a switch is shown: green ON, yellow OFF, or UNKNOWN.
pub open spec fn switch_text(v: Option<bool>) -> Seq<char> {
    match v {
        Some(true) => "\x1b[1;32mON\x1b[0m"@,
        Some(false) => "\x1b[1;33mOFF\x1b[0m"@,
        None => "UNKNOWN"@,
    }
}

/// The connection lines: whether connected, and the address if known.
pub open spec fn connection_lines(st: DeviceStatus) -> Seq<Seq<char>> {
    seq![
        "  Connected    : "@ + (if st.connection.connected {
            "\x1b[1;32m✓\x1b[0m"@
        } else {
            "\x1b[1;31m✗\x1b[0m"@
        }),
    ] + match st.connection.address {
        Some(a) => seq!["  Address      : "@ + a@],
        None => seq![],
    }
}

/// The ANC lines: mode, then level out of the maximum.
pub open spec fn anc_lines(st: DeviceStatus) -> Seq<Seq<char>> {
    seq![
        "  ANC Mode     : "@ + anc_mode_text(st.anc.mode),
        "  Level        : "@ + dec_nat(st.anc.level as nat) + "/"@ + dec_nat(
            st.anc.max_level as nat,
        ),
    ]
}

/// The EQ line, if the EQ state is known.
pub open spec fn eq_lines(st: DeviceStatus) -> Seq<Seq<char>> {
    match st.eq {
        Some(e) => seq!["  EQ           : "@ + e.name@ + " ("@ + e.description@ + ")"@],
        None => seq![],
    }
}

/// The feature lines, then an empty line.
pub open spec fn feature_lines(st: DeviceStatus) -> Seq<Seq<char>> {
    seq![
        "  Adaptive ANC : "@ + switch_text(st.features.adaptive_anc),
        "  Dual Device  : "@ + switch_text(st.features.dual_device),
        ""@,
    ]
}

/// The lines the command line prints for a status.
pub open spec fn status_text(st: DeviceStatus) -> Seq<Seq<char>> {
    status_heading() + connection_lines(st) + battery_lines(
        st.battery.left,
        st.battery.right,
        st.battery.case,
    ) + anc_lines(st) + eq_lines(st) + feature_lines(st)
}

/// A switch in plain words: ON, OFF or UNKNOWN.
pub open spec fn plain_switch_text(v: Option<bool>) -> Seq<char> {
    match v {
        Some(true) => "ON"@,
        Some(false) => "OFF"@,
        None => "UNKNOWN"@,
    }
}

/// The first lines of a one-shot status: heading, connection, address.
pub open spec fn summary_head_text(st: DeviceStatus) -> Seq<Seq<char>> {
    seq![
        "SpacePods Status:"@,
        "  Connected: "@ + (if st.connection.connected {
            "✓"@
        } else {
            "✗"@
        }),
    ] + match st.connection.address {
        Some(a) => seq!["  Address: "@ + a@],
        None => seq![],
    }
}

/// The last lines of a one-shot status: ANC, EQ and the switches.
pub open spec fn summary_tail_text(st: DeviceStatus) -> Seq<Seq<char>> {
    seq![
        "  ANC Mode: "@ + anc_mode_text(st.anc.mode),
        "  Level: "@ + dec_nat(st.anc.level as nat) + "/"@ + dec_nat(st.anc.max_level as nat),
    ] + match st.eq {
        Some(e) => seq!["  EQ: "@ + e.name@ + " - "@ + e.description@],
        None => seq![],
    } + seq![
        "  Adaptive ANC: "@ + plain_switch_text(st.features.adaptive_anc),
        "  Dual Device: "@ + plain_switch_text(st.features.dual_device),
    ]
}

/// The lines a one-shot `status` command prints.
pub open spec fn summary_text(st: DeviceStatus) -> Seq<Seq<char>> {
    summary_head_text(st) + summary_tail_text(st)
}

/// The texts of a list of strings.
pub open spec fn texts(lines: Seq<String>) -> Seq<Seq<char>> {
    lines.map_values(|l: String| l@)
}

fn add_line(lines: &mut Vec<String>, line: String)
    ensures
        texts(final(lines)@) == texts(old(lines)@).push(line@),
{
    let ghost before = lines@;
    lines.push(line);
    assert(texts(lines@) =~= texts(before).push(line@));
}

fn joined(a: &str, b: &str) -> (s: String)
    ensures
        s@ == a@ + b@,
{
    let mut s = String::from_str(a);
    s.append(b);
    s
}

fn decimal(n: u8) -> (s: String)
    ensures
        s@ == dec_nat(n as nat),
{
    let mut s = String::new();
    push_decimal_u64(&mut s, n as u64);
    s
}

fn switch_word(v: Option<bool>) -> (r: &'static str)
    ensures
        r@ == switch_text(v),
{
    match v {
        Some(true) => "\x1b[1;32mON\x1b[0m",
        Some(false) => "\x1b[1;33mOFF\x1b[0m",
        None => "UNKNOWN",
    }
}

fn mode_word(m: crate::protocol::types::AncMode) -> (r: &'static str)
    ensures
        r@ == anc_mode_text(m),
{
    match m {
        crate::protocol::types::AncMode::Off => "OFF",
        crate::protocol::types::AncMode::Active => "ANC",
        crate::protocol::types::AncMode::Transparency => "TRANSPARENCY",
    }
}

fn extend_lines(lines: &mut Vec<String>, more: Vec<String>)
    ensures
        texts(final(lines)@) == texts(old(lines)@) + texts(more@),
{
    let ghost start = texts(lines@);
    let mut i: usize = 0;
    while i < more.len()
        invariant
            i <= more@.len(),
            texts(lines@) == start + texts(more@.subrange(0, i as int)),
        decreases more@.len() - i,
    {
        add_line(lines, more[i].clone());
        assert(texts(more@.subrange(0, i + 1)) =~= texts(more@.subrange(0, i as int)).push(
            more@[i as int]@,
        ));
        i += 1;
    }
    assert(more@.subrange(0, more@.len() as int) =~= more@);
}

fn heading_part() -> (v: Vec<String>)
    ensures
        texts(v@) == status_heading(),
{
    let mut v: Vec<String> = Vec::new();
    add_line(&mut v, String::from_str("\x1b[1;36m╔═══════════════════════════════════╗\x1b[0m"));
    add_line(&mut v, String::from_str("\x1b[1;36m║         SpacePods Status          ║\x1b[0m"));
    add_line(&mut v, String::from_str("\x1b[1;36m╚═══════════════════════════════════╝\x1b[0m"));
    assert(texts(v@) =~= status_heading());
    v
}

fn connection_part(st: &DeviceStatus) -> (v: Vec<String>)
    ensures
        texts(v@) == connection_lines(*st),
{
    let mut v: Vec<String> = Vec::new();
    let mark = if st.connection.connected {
        "\x1b[1;32m✓\x1b[0m"
    } else {
        "\x1b[1;31m✗\x1b[0m"
    };
    add_line(&mut v, joined("  Connected    : ", mark));
    match &st.connection.address {
        Some(a) => {
            add_line(&mut v, joined("  Address      : ", a.as_str()));
        },
        None => {},
    }
    assert(texts(v@) =~= connection_lines(*st));
    v
}

fn battery_part(left: Option<u8>, right: Option<u8>, case: Option<u8>) -> (v: Vec<String>)
    ensures
        texts(v@) == battery_lines(left, right, case),
{
    let mut v: Vec<String> = Vec::new();
    match (left, right, case) {
        (Some(l), Some(r), Some(c)) => {
            let mut t = joined("  Battery      : L:", decimal(l).as_str());
            t.append("%  R:");
            t.append(decimal(r).as_str());
            t.append("%  Case:");
            t.append(decimal(c).as_str());
            t.append("%");
            add_line(&mut v, t);
        },
        (Some(l), Some(r), None) => {
            let mut t = joined("  Battery      : L:", decimal(l).as_str());
            t.append("%  R:");
            t.append(decimal(r).as_str());
            t.append("%");
            add_line(&mut v, t);
        },
        (Some(b), None, None) => {
            let mut t = joined("  Battery      : ", decimal(b).as_str());
            t.append("%");
            add_line(&mut v, t);
        },
        _ => {},
    }
    assert(texts(v@) =~= battery_lines(left, right, case));
    v
}

fn anc_part(st: &DeviceStatus) -> (v: Vec<String>)
    ensures
        texts(v@) == anc_lines(*st),
{
    let mut v: Vec<String> = Vec::new();
    add_line(&mut v, joined("  ANC Mode     : ", mode_word(st.anc.mode)));
    let mut lv = joined("  Level        : ", decimal(st.anc.level).as_str());
    lv.append("/");
    lv.append(decimal(st.anc.max_level).as_str());
    add_line(&mut v, lv);
    assert(texts(v@) =~= anc_lines(*st));
    v
}

fn eq_part(st: &DeviceStatus) -> (v: Vec<String>)
    ensures
        texts(v@) == eq_lines(*st),
{
    let mut v: Vec<String> = Vec::new();
    match &st.eq {
        Some(e) => {
            let mut t = joined("  EQ           : ", e.name.as_str());
            t.append(" (");
            t.append(e.description.as_str());
            t.append(")");
            add_line(&mut v, t);
        },
        None => {},
    }
    assert(texts(v@) =~= eq_lines(*st));
    v
}

fn feature_part(st: &DeviceStatus) -> (v: Vec<String>)
    ensures
        texts(v@) == feature_lines(*st),
{
    let mut v: Vec<String> = Vec::new();
    add_line(&mut v, joined("  Adaptive ANC : ", switch_word(st.features.adaptive_anc)));
    add_line(&mut v, joined("  Dual Device  : ", switch_word(st.features.dual_device)));
    add_line(&mut v, String::from_str(""));
    assert(texts(v@) =~= feature_lines(*st));
    v
}

fn plain_switch_word(v: Option<bool>) -> (r: &'static str)
    ensures
        r@ == plain_switch_text(v),
{
    match v {
        Some(true) => "ON",
        Some(false) => "OFF",
        None => "UNKNOWN",
    }
}

fn summary_head(st: &DeviceStatus) -> (v: Vec<String>)
    ensures
        texts(v@) == summary_head_text(*st),
{
    let mut v: Vec<String> = Vec::new();
    add_line(&mut v, String::from_str("SpacePods Status:"));
    add_line(
        &mut v,
        joined(
            "  Connected: ",
            if st.connection.connected {
                "✓"
            } else {
                "✗"
            },
        ),
    );
    match &st.connection.address {
        Some(a) => {
            add_line(&mut v, joined("  Address: ", a.as_str()));
        },
        None => {},
    }
    assert(texts(v@) =~= summary_head_text(*st));
    v
}

fn summary_tail(st: &DeviceStatus) -> (v: Vec<String>)
    ensures
        texts(v@) == summary_tail_text(*st),
{
    let mut v: Vec<String> = Vec::new();
    add_line(&mut v, joined("  ANC Mode: ", mode_word(st.anc.mode)));
    let mut lv = joined("  Level: ", decimal(st.anc.level).as_str());
    lv.append("/");
    lv.append(decimal(st.anc.max_level).as_str());
    add_line(&mut v, lv);
    match &st.eq {
        Some(e) => {
            let mut t = joined("  EQ: ", e.name.as_str());
            t.append(" - ");
            t.append(e.description.as_str());
            add_line(&mut v, t);
        },
        None => {},
    }
    add_line(&mut v, joined("  Adaptive ANC: ", plain_switch_word(st.features.adaptive_anc)));
    add_line(&mut v, joined("  Dual Device: ", plain_switch_word(st.features.dual_device)));
    assert(texts(v@) =~= summary_tail_text(*st));
    v
}

/// The lines a one-shot `status` command prints for a status.
pub fn summary_lines(st: &DeviceStatus) -> (lines: Vec<String>)
    ensures
        texts(lines@) == summary_text(*st),
{
    let mut lines = summary_head(st);
    extend_lines(&mut lines, summary_tail(st));
    lines
}

/// The lines to print for a status.
pub fn status_lines(st: &DeviceStatus) -> (lines: Vec<String>)
    ensures
        texts(lines@) == status_text(*st),
{
    let mut lines = heading_part();
    extend_lines(&mut lines, connection_part(st));
    extend_lines(&mut lines, battery_part(st.battery.left, st.battery.right, st.battery.case));
    extend_lines(&mut lines, anc_part(st));
    extend_lines(&mut lines, eq_part(st));
    extend_lines(&mut lines, feature_part(st));
    lines
}

} // verus!
