//! What the window says and asks about a game over the network.
//!
//! One player opens a room at a port of their machine, the other joins it. The connection itself is
//! not here: this is the form in which players say what they want, and the lines in which they read
//! how it goes.

use vstd::prelude::*;
use vstd::string::*;

use crate::text::{dec, push_dec};

verus! {

/// The port that the form begins with.
pub const DEFAULT_NET_PORT: &'static str = "7000";

/// By how many frames a player's buttons may be delayed at most.
pub const MAX_INPUT_DELAY: u8 = 8;

/// Where a game over the network is.
#[allow(inconsistent_fields)]
#[derive(Debug, Clone, Copy, PartialEq, Eq, Structural)]
pub enum NetPhase {
    Idle,
    Waiting { port: u16 },
    Connecting,
    Connected { player: u8, input_delay: u8 },
    Closing,
}

/// How a game over the network ended.
#[derive(Debug, Clone, Copy, PartialEq, Eq, Structural)]
pub enum NetEndKind {
    Normal,
    Error,
    /// The machines of the two players went apart.
    Desync,
}

/// What a form asks for.
#[derive(Debug, Clone, Copy, PartialEq, Eq, Structural)]
pub enum NetDialog {
    /// To open a room.
    Host,
    /// To join one.
    Join,
}

/// What a player asked for in a form.
#[derive(Debug, Clone, Copy, PartialEq, Eq, Structural)]
pub enum NetRequest {
    Host { port: u16, input_delay: u8 },
    /// To join the room at the address in the form.
    Join,
}

// ---- numbers in text -----------------------------------------------------------

/// A character with the Unicode property `White_Space`.
pub open spec fn is_space(c: char) -> bool {
    let v = c as int;
    ||| 9 <= v <= 13
    ||| v == 0x20
    ||| v == 0x85
    ||| v == 0xA0
    ||| v == 0x1680
    ||| 0x2000 <= v <= 0x200A
    ||| v == 0x2028
    ||| v == 0x2029
    ||| v == 0x202F
    ||| v == 0x205F
    ||| v == 0x3000
}

pub open spec fn is_digit(c: char) -> bool {
    '0' <= c <= '9'
}

/// `s` without the white space at its ends.
pub open spec fn trimmed(s: Seq<char>) -> Seq<char>
    decreases s.len(),
{
    if s.len() == 0 {
        s
    } else if is_space(s[0]) {
        trimmed(s.drop_first())
    } else if is_space(s.last()) {
        trimmed(s.drop_last())
    } else {
        s
    }
}

/// The number that digits stand for.
pub open spec fn number(s: Seq<char>) -> nat
    decreases s.len(),
{
    if s.len() == 0 {
        0
    } else {
        (number(s.drop_last()) * 10 + (s.last() as int - '0' as int)) as nat
    }
}

pub open spec fn all_digits(s: Seq<char>) -> bool {
    forall|i: int| 0 <= i < s.len() ==> is_digit(#[trigger] s[i])
}

/// The port that a text names: digits, of a number that fits, with or without a plus in front.
pub open spec fn port_in(text: Seq<char>) -> Option<u16> {
    let s = trimmed(text);
    let digits = if s.len() > 0 && s[0] == '+' { s.drop_first() } else { s };
    if digits.len() > 0 && all_digits(digits) && number(digits) <= u16::MAX {
        Some(number(digits) as u16)
    } else {
        None
    }
}

fn space(c: char) -> (yes: bool)
    ensures
        yes == is_space(c),
{
    let v: u32 = c as u32;
    9 <= v && v <= 13 || v == 0x20 || v == 0x85 || v == 0xA0 || v == 0x1680 || 0x2000 <= v && v
        <= 0x200A || v == 0x2028 || v == 0x2029 || v == 0x202F || v == 0x205F || v == 0x3000
}

/// Where the text without the white space at its ends begins and ends.
fn trim(text: &str) -> (ends: (usize, usize))
    ensures
        ends.0 <= ends.1 <= text@.len(),
        text@.subrange(ends.0 as int, ends.1 as int) == trimmed(text@),
{
    let mut begin: usize = 0;
    let mut end: usize = text.unicode_len();
    assert(text@.subrange(0, end as int) =~= text@);
    while begin < end && space(text.get_char(begin))
        invariant
            begin <= end == text@.len(),
            trimmed(text@.subrange(begin as int, end as int)) == trimmed(text@),
        decreases end - begin,
    {
        assert(text@.subrange(begin as int, end as int).drop_first() =~= text@.subrange(
            begin + 1,
            end as int,
        ));
        begin = begin + 1;
    }
    while begin < end && space(text.get_char(end - 1))
        invariant
            begin <= end <= text@.len(),
            begin < end ==> !is_space(text@[begin as int]),
            trimmed(text@.subrange(begin as int, end as int)) == trimmed(text@),
        decreases end - begin,
    {
        assert(text@.subrange(begin as int, end as int).drop_last() =~= text@.subrange(
            begin as int,
            end - 1,
        ));
        end = end - 1;
    }
    (begin, end)
}

/// The port that a text names.
pub fn parse_port(text: &str) -> (port: Option<u16>)
    ensures
        port == port_in(text@),
{
    let (begin, end): (usize, usize) = trim(text);
    let ghost s = trimmed(text@);
    let plus: bool = begin < end && text.get_char(begin) == '+';
    let first: usize = if plus { begin + 1 } else { begin };
    let ghost digits = if s.len() > 0 && s[0] == '+' { s.drop_first() } else { s };
    assert(digits =~= text@.subrange(first as int, end as int));
    if first == end {
        return None;
    }
    let mut at: usize = first;
    let mut value: u32 = 0;
    assert(digits.take(0) =~= Seq::<char>::empty());
    while at < end
        invariant
            first <= at <= end <= text@.len(),
            digits == text@.subrange(first as int, end as int),
            digits == (if s.len() > 0 && s[0] == '+' { s.drop_first() } else { s }),
            s == trimmed(text@),
            all_digits(digits.take(at - first)),
            value <= 0x1_0000,
            number(digits.take(at - first)) <= u16::MAX ==> value == number(
                digits.take(at - first),
            ),
            number(digits.take(at - first)) > u16::MAX ==> value == 0x1_0000,
        decreases end - at,
    {
        let c: char = text.get_char(at);
        assert(c == digits[at - first]);
        if c < '0' || c > '9' {
            return None;
        }
        let ghost next = digits.take(at - first + 1);
        assert(next.drop_last() =~= digits.take(at - first));
        assert(next.last() == c);
        let more: u32 = value * 10 + (c as u32 - '0' as u32);
        value = if more > 0xFFFF { 0x1_0000 } else { more };
        at = at + 1;
    }
    assert(digits.take(end - first) =~= digits);
    if value > 0xFFFF { None } else { Some(value as u16) }
}

// ---- the form ------------------------------------------------------------------

/// How the last game over the network ended badly.
#[derive(Debug, Clone)]
pub struct NetResult {
    pub kind: NetEndKind,
    pub message: String,
    /// The files that were saved.
    pub files: Vec<String>,
}

/// The form in which a player asks for a game over the network.
#[derive(Debug, Clone)]
pub struct NetForm {
    dialog: Option<NetDialog>,
    port_text: String,
    addr_text: String,
    error: Option<String>,
    /// The delay that a host asks for. Who joins takes that of the host.
    input_delay: u8,
    result: Option<NetResult>,
}

/// How the last game ended badly, as a value.
pub struct ResultModel {
    pub kind: NetEndKind,
    pub message: Seq<char>,
    pub files: Seq<Seq<char>>,
}

/// A form as a value.
pub struct FormModel {
    pub dialog: Option<NetDialog>,
    pub port_text: Seq<char>,
    pub addr_text: Seq<char>,
    pub error: Option<Seq<char>>,
    pub input_delay: u8,
    pub result: Option<ResultModel>,
}

/// The names of files.
pub open spec fn names_of(files: Seq<String>) -> Seq<Seq<char>> {
    files.map_values(|name: String| name@)
}

impl View for NetResult {
    type V = ResultModel;

    open spec fn view(&self) -> ResultModel {
        ResultModel { kind: self.kind, message: self.message@, files: names_of(self.files@) }
    }
}

impl View for NetForm {
    type V = FormModel;

    closed spec fn view(&self) -> FormModel {
        FormModel {
            dialog: self.dialog,
            port_text: self.port_text@,
            addr_text: self.addr_text@,
            error: match self.error {
                Some(text) => Some(text@),
                None => None,
            },
            input_delay: self.input_delay,
            result: match self.result {
                Some(result) => Some(result@),
                None => None,
            },
        }
    }
}

impl FormModel {
    pub open spec fn fresh(input_delay: u8) -> FormModel {
        FormModel {
            dialog: None,
            port_text: DEFAULT_NET_PORT@,
            addr_text: ""@,
            error: None,
            input_delay,
            result: None,
        }
    }

    /// What the form asks for as it is filled in. `addr_reads` tells whether the address in it is
    /// one.
    pub open spec fn request(self, addr_reads: bool) -> Option<NetRequest> {
        match self.dialog {
            Some(NetDialog::Host) => match port_in(self.port_text) {
                Some(port) => Some(NetRequest::Host { port, input_delay: self.input_delay }),
                None => None,
            },
            Some(NetDialog::Join) => if addr_reads {
                Some(NetRequest::Join)
            } else {
                None
            },
            None => None,
        }
    }

    /// The form after it was handed in: gone, or with a word on what is wrong.
    pub open spec fn submitted(self, addr_reads: bool) -> FormModel {
        if self.request(addr_reads) is Some {
            FormModel { dialog: None, ..self }
        } else {
            match self.dialog {
                Some(NetDialog::Host) => FormModel {
                    error: Some("port 必須是 0–65535 的整數（例如 7000）"@),
                    ..self
                },
                Some(NetDialog::Join) => FormModel {
                    error: Some("格式必須是「IP:port」，例如 192.168.1.10:7000（要包含 port）"@),
                    ..self
                },
                None => self,
            }
        }
    }

    /// The form after a game ended: gone, and after a bad end with a word on it.
    pub open spec fn ended(
        self,
        kind: NetEndKind,
        message: Seq<char>,
        files: Seq<Seq<char>>,
    ) -> FormModel {
        FormModel {
            dialog: None,
            result: if kind is Normal {
                self.result
            } else {
                Some(ResultModel { kind, message, files })
            },
            ..self
        }
    }
}

impl NetForm {
    pub fn new(input_delay: u8) -> (form: Self)
        ensures
            form@ == FormModel::fresh(input_delay),
    {
        NetForm {
            dialog: None,
            port_text: DEFAULT_NET_PORT.to_owned(),
            addr_text: "".to_owned(),
            error: None,
            input_delay,
            result: None,
        }
    }

    /// Shows the form.
    pub fn open(&mut self, dialog: NetDialog)
        ensures
            final(self)@ == (FormModel { dialog: Some(dialog), error: None, ..old(self)@ }),
    {
        self.dialog = Some(dialog);
        self.error = None;
    }

    /// Puts the form away.
    pub fn cancel(&mut self)
        ensures
            final(self)@ == (FormModel { dialog: None, ..old(self)@ }),
    {
        self.dialog = None;
    }

    pub fn set_port_text(&mut self, text: String)
        ensures
            final(self)@ == (FormModel { port_text: text@, ..old(self)@ }),
    {
        self.port_text = text;
    }

    pub fn set_addr_text(&mut self, text: String)
        ensures
            final(self)@ == (FormModel { addr_text: text@, ..old(self)@ }),
    {
        self.addr_text = text;
    }

    /// Sets the delay that a host asks for, up to the longest there is.
    pub fn set_input_delay(&mut self, frames: u8)
        ensures
            final(self)@ == (FormModel {
                input_delay: if frames > MAX_INPUT_DELAY { MAX_INPUT_DELAY } else { frames },
                ..old(self)@
            }),
    {
        self.input_delay = if frames > MAX_INPUT_DELAY { MAX_INPUT_DELAY } else { frames };
    }

    /// Hands the form in. `addr_reads` tells whether the address in it is one.
    pub fn submit(&mut self, addr_reads: bool) -> (request: Option<NetRequest>)
        ensures
            request == old(self)@.request(addr_reads),
            final(self)@ == old(self)@.submitted(addr_reads),
    {
        match self.dialog {
            Some(NetDialog::Host) => match parse_port(self.port_text.as_str()) {
                Some(port) => {
                    self.dialog = None;
                    Some(NetRequest::Host { port, input_delay: self.input_delay })
                },
                None => {
                    self.error = Some("port 必須是 0–65535 的整數（例如 7000）".to_owned());
                    None
                },
            },
            Some(NetDialog::Join) => {
                if addr_reads {
                    self.dialog = None;
                    Some(NetRequest::Join)
                } else {
                    self.error =
                    Some("格式必須是「IP:port」，例如 192.168.1.10:7000（要包含 port）".to_owned());
                    None
                }
            },
            None => None,
        }
    }

    /// A game over the network ended.
    pub fn end(&mut self, kind: NetEndKind, message: String, files: Vec<String>)
        ensures
            final(self)@ == old(self)@.ended(kind, message@, names_of(files@)),
    {
        self.dialog = None;
        match kind {
            NetEndKind::Normal => {},
            _ => {
                self.result = Some(NetResult { kind, message, files });
            },
        }
    }

    /// The word on the end was read.
    pub fn dismiss_result(&mut self)
        ensures
            final(self)@ == (FormModel { result: None, ..old(self)@ }),
    {
        self.result = None;
    }

    pub fn dialog(&self) -> (dialog: Option<NetDialog>)
        ensures
            dialog == self@.dialog,
    {
        self.dialog
    }

    pub fn port_text(&self) -> (text: &str)
        ensures
            text@ == self@.port_text,
    {
        self.port_text.as_str()
    }

    pub fn addr_text(&self) -> (text: &str)
        ensures
            text@ == self@.addr_text,
    {
        self.addr_text.as_str()
    }

    pub fn error(&self) -> (text: Option<&str>)
        ensures
            text is Some == self@.error is Some,
            text is Some ==> text->0@ == self@.error->0,
    {
        match &self.error {
            Some(text) => Some(text.as_str()),
            None => None,
        }
    }

    pub fn input_delay(&self) -> (frames: u8)
        ensures
            frames == self@.input_delay,
    {
        self.input_delay
    }

    pub fn result(&self) -> (result: Option<&NetResult>)
        ensures
            result is Some == self@.result is Some,
            result is Some ==> result->0@ == self@.result->0,
    {
        match &self.result {
            Some(result) => Some(result),
            None => None,
        }
    }
}

// ---- what is said --------------------------------------------------------------

/// What a connection has cost so far.
#[derive(Debug, Clone, Copy, PartialEq, Eq, Structural)]
pub struct NetStats {
    /// How often the machine waited for the other player.
    pub stalls: u64,
    pub send_bytes_per_sec: u64,
    pub recv_bytes_per_sec: u64,
}

/// The title of a form.
pub open spec fn title(dialog: NetDialog) -> Seq<char> {
    match dialog {
        NetDialog::Host => "Netplay：建立房間"@,
        NetDialog::Join => "Netplay：加入房間"@,
    }
}

/// What hands a form in.
pub open spec fn go(dialog: NetDialog) -> Seq<char> {
    match dialog {
        NetDialog::Host => "建立房間"@,
        NetDialog::Join => "連線"@,
    }
}

/// What ends a game: before the other player is there it is called off, later it is broken off.
pub open spec fn leave(phase: NetPhase) -> Seq<char> {
    match phase {
        NetPhase::Idle | NetPhase::Waiting { .. } | NetPhase::Connecting => "取消"@,
        NetPhase::Connected { .. } | NetPhase::Closing => "中斷連線"@,
    }
}

/// The title over a bad end.
pub open spec fn result_heading(kind: NetEndKind) -> Seq<char> {
    match kind {
        NetEndKind::Desync => "Netplay：偵測到不同步（desync）"@,
        _ => "Netplay 已結束"@,
    }
}

/// How the saved files of a bad end can be looked into: after the machines went apart, where there
/// are files.
pub open spec fn advice(result: ResultModel) -> Seq<char> {
    if result.kind is Desync && result.files.len() > 0 {
        "分析：用 nes-test replay verify <rom> <replay> 找出分歧的幀範圍；用 nes-test diff-state 比對雙方的 .state 檔。"@
    } else {
        ""@
    }
}

/// The line on a game over the network. `addr` is the address that is connected to, `ping` the
/// milliseconds that a message takes there and back, and `waited` the seconds that were waited.
pub open spec fn net_line(
    phase: NetPhase,
    addr: Seq<char>,
    ping: Option<Seq<char>>,
    waited: Seq<char>,
    stats: NetStats,
) -> Seq<char> {
    match phase {
        NetPhase::Idle => ""@,
        NetPhase::Waiting { port } => "[Netplay] 等待對手連線（UDP port "@ + dec(port as nat)
            + "）…"@,
        NetPhase::Connecting => "[Netplay] 正在連線到 "@ + addr + "…"@,
        NetPhase::Closing => "[Netplay] 中斷連線中…"@,
        NetPhase::Connected { player, input_delay } => "[Netplay] 已連線｜你是玩家 "@ + dec(
            player as nat + 1,
        ) + "｜ping "@ + (match ping {
            Some(ms) => ms + " ms"@,
            None => "—"@,
        }) + "｜input delay "@ + dec(input_delay as nat) + "｜stall "@ + dec(stats.stalls as nat)
            + " 次（"@ + waited + " 秒）｜↑"@ + dec(stats.send_bytes_per_sec as nat) + " ↓"@ + dec(
            stats.recv_bytes_per_sec as nat,
        ) + " B/s"@,
    }
}

/// Names in one line.
pub open spec fn listed(names: Seq<Seq<char>>) -> Seq<char>
    decreases names.len(),
{
    if names.len() == 0 {
        Seq::empty()
    } else if names.len() == 1 {
        names[0]
    } else {
        listed(names.drop_last()) + "、"@ + names.last()
    }
}

pub fn dialog_title(dialog: NetDialog) -> (text: &'static str)
    ensures
        text@ == title(dialog),
{
    match dialog {
        NetDialog::Host => "Netplay：建立房間",
        NetDialog::Join => "Netplay：加入房間",
    }
}

pub fn go_label(dialog: NetDialog) -> (text: &'static str)
    ensures
        text@ == go(dialog),
{
    match dialog {
        NetDialog::Host => "建立房間",
        NetDialog::Join => "連線",
    }
}

pub fn cancel_label(phase: NetPhase) -> (text: &'static str)
    ensures
        text@ == leave(phase),
{
    match phase {
        NetPhase::Idle | NetPhase::Waiting { .. } | NetPhase::Connecting => "取消",
        NetPhase::Connected { .. } | NetPhase::Closing => "中斷連線",
    }
}

pub fn result_title(kind: NetEndKind) -> (text: &'static str)
    ensures
        text@ == result_heading(kind),
{
    match kind {
        NetEndKind::Desync => "Netplay：偵測到不同步（desync）",
        _ => "Netplay 已結束",
    }
}

pub fn result_advice(result: &NetResult) -> (text: &'static str)
    ensures
        text@ == advice(result@),
{
    match result.kind {
        NetEndKind::Desync => {
            if result.files.len() > 0 {
                "分析：用 nes-test replay verify <rom> <replay> 找出分歧的幀範圍；用 nes-test diff-state 比對雙方的 .state 檔。"
            } else {
                ""
            }
        },
        _ => "",
    }
}

/// The line on a game over the network.
pub fn net_label(
    phase: NetPhase,
    addr: &str,
    ping: Option<&str>,
    waited: &str,
    stats: NetStats,
) -> (text: String)
    ensures
        text@ == net_line(
            phase,
            addr@,
            match ping {
                Some(ms) => Some(ms@),
                None => None,
            },
            waited@,
            stats,
        ),
{
    match phase {
        NetPhase::Idle => "".to_owned(),
        NetPhase::Waiting { port } => {
            let mut text: String = "[Netplay] 等待對手連線（UDP port ".to_owned();
            push_dec(&mut text, port as u64);
            text.append("）…");
            text
        },
        NetPhase::Connecting => {
            let mut text: String = "[Netplay] 正在連線到 ".to_owned();
            text.append(addr);
            text.append("…");
            text
        },
        NetPhase::Closing => "[Netplay] 中斷連線中…".to_owned(),
        NetPhase::Connected { player, input_delay } => {
            let mut text: String = "[Netplay] 已連線｜你是玩家 ".to_owned();
            push_dec(&mut text, player as u64 + 1);
            text.append("｜ping ");
            let ghost so_far = text@;
            match ping {
                Some(ms) => {
                    text.append(ms);
                    text.append(" ms");
                    assert(text@ =~= so_far + (ms@ + " ms"@));
                },
                None => {
                    text.append("—");
                },
            }
            text.append("｜input delay ");
            push_dec(&mut text, input_delay as u64);
            text.append("｜stall ");
            push_dec(&mut text, stats.stalls);
            text.append(" 次（");
            text.append(waited);
            text.append(" 秒）｜↑");
            push_dec(&mut text, stats.send_bytes_per_sec);
            text.append(" ↓");
            push_dec(&mut text, stats.recv_bytes_per_sec);
            text.append(" B/s");
            text
        },
    }
}

/// Names in one line.
pub fn list(names: &Vec<String>) -> (text: String)
    ensures
        text@ == listed(names_of(names@)),
{
    let mut text: String = String::new();
    let mut at: usize = 0;
    let ghost all = names_of(names@);
    while at < names.len()
        invariant
            at <= names@.len(),
            all == names_of(names@),
            text@ == listed(all.take(at as int)),
        decreases names@.len() - at,
    {
        proof {
            assert(all.take(at + 1).drop_last() =~= all.take(at as int));
            assert(all.take(at + 1).last() == names@[at as int]@);
        }
        if at > 0 {
            text.append("、");
        }
        text.append(names[at].as_str());
        at = at + 1;
        assert(text@ =~= listed(all.take(at as int)));
    }
    assert(all.take(at as int) =~= all);
    text
}

// ---- laws ----------------------------------------------------------------------

/// A port that was written down is read again as the same port.
pub proof fn law_a_written_port_is_read_again(port: u16)
    ensures
        port_in(dec(port as nat)) == Some(port),
{
    lemma_written(port as nat);
    let s = dec(port as nat);
    assert(is_digit(s[0]) && is_digit(s.last()));
    assert(trimmed(s) == s);
}

/// What is written down are digits, of that number.
proof fn lemma_written(v: nat)
    ensures
        dec(v).len() > 0,
        all_digits(dec(v)),
        number(dec(v)) == v,
    decreases v,
{
    reveal_with_fuel(number, 2);
    if v < 10 {
        assert(dec(v).drop_last() =~= Seq::empty());
    } else {
        lemma_written(v / 10);
        assert(dec(v).drop_last() =~= dec(v / 10));
    }
}

/// A form that was handed in either asks for something and is gone, or stays and says what is
/// wrong. What was written in it is kept either way.
pub proof fn law_a_form_is_answered(form: FormModel, addr_reads: bool)
    requires
        form.dialog is Some,
    ensures
        form.request(addr_reads) is Some <==> form.submitted(addr_reads).dialog is None,
        form.request(addr_reads) is None ==> form.submitted(addr_reads).error is Some,
        form.submitted(addr_reads).port_text == form.port_text,
        form.submitted(addr_reads).addr_text == form.addr_text,
        form.submitted(addr_reads).input_delay == form.input_delay,
{
}

} // verus!
