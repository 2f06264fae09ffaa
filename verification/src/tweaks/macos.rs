//! The macOS tweaks, which set kernel variables through `sysctl`.

use vstd::prelude::*;

use crate::session::string_option_view;
use crate::text::{colon_pair, colon_pair_spec, join_pair, lemma_colon_pair_roundtrip};
use crate::tweaks::{setting_write, writes, OsPlatform, SettingWrite, Tweak};

verus! {

/// The program that reads and writes kernel variables.
pub fn sysctl_program() -> (r: &'static str)
    ensures
        r@ == "sysctl"@,
{
    "sysctl"
}

/// The arguments that print the value of `key`.
pub fn sysctl_read_args(key: &str) -> (r: Vec<String>)
    ensures
        r@.len() == 2,
        r@[0]@ == "-n"@,
        r@[1]@ == key@,
{
    let mut v = Vec::new();
    v.push("-n".to_owned());
    v.push(key.to_owned());
    v
}

/// The `key=value` assignment that `sysctl -w` takes.
pub fn sysctl_assignment(key: &str, value: &str) -> (r: String)
    ensures
        r@ == key@ + seq!['='] + value@,
{
    let mut r = key.to_owned();
    r.append("=");
    proof {
        reveal_strlit("=");
    }
    r.append(value);
    r
}

/// The arguments that write `value` into `key`.
pub fn sysctl_write_args(key: &str, value: &str) -> (r: Vec<String>)
    ensures
        r@.len() == 2,
        r@[0]@ == "-w"@,
        r@[1]@ == key@ + seq!['='] + value@,
{
    let mut v = Vec::new();
    v.push("-w".to_owned());
    v.push(sysctl_assignment(key, value));
    v
}

/// Turns off TCP delayed acknowledgements.
pub struct DelayedAckTweak;

impl Tweak for DelayedAckTweak {
    open spec fn spec_id(&self) -> Seq<char> {
        "macos_delayed_ack"@
    }

    open spec fn spec_name(&self) -> Seq<char> {
        "Desabilitar TCP Delayed ACK"@
    }

    open spec fn spec_description(&self) -> Seq<char> {
        "Otimiza o tráfego interativo (jogos) respondendo imediatamente aos pacotes TCP recebidos, reduzindo a latência artificial."@
    }

    open spec fn spec_supported_os(&self) -> Seq<OsPlatform> {
        seq![OsPlatform::MacOS]
    }

    open spec fn spec_requires_reboot(&self) -> bool {
        false
    }

    fn id(&self) -> (r: &'static str) {
        "macos_delayed_ack"
    }

    fn name(&self) -> (r: &'static str) {
        "Desabilitar TCP Delayed ACK"
    }

    fn description(&self) -> (r: &'static str) {
        "Otimiza o tráfego interativo (jogos) respondendo imediatamente aos pacotes TCP recebidos, reduzindo a latência artificial."
    }

    fn supported_os(&self) -> (r: Vec<OsPlatform>) {
        let mut v = Vec::new();
        v.push(OsPlatform::MacOS);
        v
    }

    fn requires_reboot(&self) -> (r: bool) {
        false
    }
}

impl DelayedAckTweak {
    /// The kernel variable of the setting.
    pub fn key(&self) -> (r: &'static str)
        ensures
            r@ == "net.inet.tcp.delayed_ack"@,
    {
        "net.inet.tcp.delayed_ack"
    }

    /// The write that applies the tweak: `0` turns delayed ACK off. The
    /// option is not used.
    pub fn apply_writes(&self, option_value: Option<&str>) -> (r: Vec<SettingWrite>)
        ensures
            r@.len() == 1,
            writes(r@[0], "net.inet.tcp.delayed_ack"@, "0"@),
    {
        let mut v = Vec::new();
        v.push(setting_write("net.inet.tcp.delayed_ack", "0"));
        v
    }

    /// The write that puts back `original_value`.
    pub fn revert_writes(&self, original_value: &str) -> (r: Vec<SettingWrite>)
        ensures
            r@.len() == 1,
            writes(r@[0], "net.inet.tcp.delayed_ack"@, original_value@),
    {
        let mut v = Vec::new();
        v.push(setting_write("net.inet.tcp.delayed_ack", original_value));
        v
    }
}

/// Enlarges the TCP send and receive buffers.
pub struct TcpWindowSizeTweak;

impl Tweak for TcpWindowSizeTweak {
    open spec fn spec_id(&self) -> Seq<char> {
        "macos_tcp_window_size"@
    }

    open spec fn spec_name(&self) -> Seq<char> {
        "TCP Send/Recv Space (Window Size)"@
    }

    open spec fn spec_description(&self) -> Seq<char> {
        "Aumenta o tamanho da janela do TCP. (Nota: O macOS moderno faz auto-tuning bem, o ganho de jitter aqui é marginal/análise)."@
    }

    open spec fn spec_supported_os(&self) -> Seq<OsPlatform> {
        seq![OsPlatform::MacOS]
    }

    open spec fn spec_requires_reboot(&self) -> bool {
        false
    }

    fn id(&self) -> (r: &'static str) {
        "macos_tcp_window_size"
    }

    fn name(&self) -> (r: &'static str) {
        "TCP Send/Recv Space (Window Size)"
    }

    fn description(&self) -> (r: &'static str) {
        "Aumenta o tamanho da janela do TCP. (Nota: O macOS moderno faz auto-tuning bem, o ganho de jitter aqui é marginal/análise)."
    }

    fn supported_os(&self) -> (r: Vec<OsPlatform>) {
        let mut v = Vec::new();
        v.push(OsPlatform::MacOS);
        v
    }

    fn requires_reboot(&self) -> (r: bool) {
        false
    }
}

/// The value, `0` in place of a value that could not be read.
pub open spec fn or_zero(v: Option<Seq<char>>) -> Seq<char> {
    match v {
        Some(x) => x,
        None => "0"@,
    }
}

/// The value recorded for the window sizes, when at least one could be
/// read: `send:recv`.
pub open spec fn window_value_spec(send: Option<Seq<char>>, recv: Option<Seq<char>>) -> Seq<char> {
    or_zero(send) + seq![':'] + or_zero(recv)
}

/// Whether `ws` writes the send size `send` then the receive size `recv`.
pub open spec fn window_writes(ws: Seq<SettingWrite>, send: Seq<char>, recv: Seq<char>) -> bool {
    &&& ws.len() == 2
    &&& writes(ws[0], "net.inet.tcp.sendspace"@, send)
    &&& writes(ws[1], "net.inet.tcp.recvspace"@, recv)
}

impl TcpWindowSizeTweak {
    /// The kernel variable of the send buffer size.
    pub fn send_key(&self) -> (r: &'static str)
        ensures
            r@ == "net.inet.tcp.sendspace"@,
    {
        "net.inet.tcp.sendspace"
    }

    /// The kernel variable of the receive buffer size.
    pub fn recv_key(&self) -> (r: &'static str)
        ensures
            r@ == "net.inet.tcp.recvspace"@,
    {
        "net.inet.tcp.recvspace"
    }

    /// The current value, from the two sizes that could be read: none when
    /// neither could be read, else `send:recv` with `0` for a size that could
    /// not be read.
    pub fn window_value(&self, send: Option<String>, recv: Option<String>) -> (r: Option<String>)
        ensures
            send is None && recv is None ==> r is None,
            !(send is None && recv is None) ==> (r matches Some(v) && v@ == window_value_spec(
                string_option_view(send),
                string_option_view(recv),
            )),
    {
        if send.is_none() && recv.is_none() {
            return None;
        }
        proof {
            reveal_strlit("0");
        }
        let s = match send {
            Some(s) => s,
            None => "0".to_owned(),
        };
        let r = match recv {
            Some(r) => r,
            None => "0".to_owned(),
        };
        Some(join_pair(s.as_str(), r.as_str()))
    }

    /// The writes that apply the tweak: 524288 bytes for both buffers. The
    /// option is not used.
    pub fn apply_writes(&self, option_value: Option<&str>) -> (r: Vec<SettingWrite>)
        ensures
            window_writes(r@, "524288"@, "524288"@),
    {
        let mut v = Vec::new();
        v.push(setting_write("net.inet.tcp.sendspace", "524288"));
        v.push(setting_write("net.inet.tcp.recvspace", "524288"));
        v
    }

    /// The writes that put back `original_value`, a `send:recv` pair; none
    /// when it does not split at `:` into two parts.
    pub fn revert_writes(&self, original_value: &str) -> (r: Vec<SettingWrite>)
        ensures
            match colon_pair_spec(original_value@) {
                Some((send, recv)) => window_writes(r@, send, recv),
                None => r@.len() == 0,
            },
    {
        let mut v = Vec::new();
        match colon_pair(original_value) {
            Some((send, recv)) => {
                v.push(setting_write("net.inet.tcp.sendspace", send.as_str()));
                v.push(setting_write("net.inet.tcp.recvspace", recv.as_str()));
            },
            None => {},
        }
        v
    }
}

/// Reverting the window sizes with the value that was read writes back the
/// sizes that were read, when neither holds a colon.
pub proof fn lemma_window_value_roundtrip(send: Option<Seq<char>>, recv: Option<Seq<char>>)
    requires
        forall|i: int| 0 <= i < or_zero(send).len() ==> #[trigger] or_zero(send)[i] != ':',
        forall|i: int| 0 <= i < or_zero(recv).len() ==> #[trigger] or_zero(recv)[i] != ':',
    ensures
        colon_pair_spec(window_value_spec(send, recv)) == Some((or_zero(send), or_zero(recv))),
{
    lemma_colon_pair_roundtrip(or_zero(send), or_zero(recv));
}

} // verus!
