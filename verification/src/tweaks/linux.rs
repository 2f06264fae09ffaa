//! The Linux tweaks: kernel parameters under `/proc/sys` and the network
//! card's interrupt coalescing through `ethtool`.

use vstd::prelude::*;

use crate::session::string_option_view;
use crate::text::{
    colon_pair, colon_pair_spec, join_pair, lemma_colon_pair_roundtrip,
    chars_of, range_equals, range_starts_with, split, split_ranges, string_of_range, trim,
    trim_range, trim_str, Separator,
};
use crate::tweaks::{setting_write, writes, OsPlatform, SettingWrite, Tweak};

verus! {

/// The value that a kernel parameter file holds, from the file's content:
/// the content without surrounding whitespace.
pub fn sysctl_file_value(content: &str) -> (r: String)
    ensures
        r@ == trim(content@),
{
    trim_str(content)
}

/// Switches TCP congestion control to BBR.
pub struct TcpCongestionControlTweak;

impl Tweak for TcpCongestionControlTweak {
    open spec fn spec_id(&self) -> Seq<char> {
        "linux_tcp_bbr"@
    }

    open spec fn spec_name(&self) -> Seq<char> {
        "TCP BBR Congestion Control"@
    }

    open spec fn spec_description(&self) -> Seq<char> {
        "Altera o controle de congestionamento para BBR, que otimiza banda e minimiza latência em redes variadas."@
    }

    open spec fn spec_supported_os(&self) -> Seq<OsPlatform> {
        seq![OsPlatform::Linux]
    }

    open spec fn spec_requires_reboot(&self) -> bool {
        false
    }

    fn id(&self) -> (r: &'static str) {
        "linux_tcp_bbr"
    }

    fn name(&self) -> (r: &'static str) {
        "TCP BBR Congestion Control"
    }

    fn description(&self) -> (r: &'static str) {
        "Altera o controle de congestionamento para BBR, que otimiza banda e minimiza latência em redes variadas."
    }

    fn supported_os(&self) -> (r: Vec<OsPlatform>) {
        let mut v = Vec::new();
        v.push(OsPlatform::Linux);
        v
    }

    fn requires_reboot(&self) -> (r: bool) {
        false
    }
}

impl TcpCongestionControlTweak {
    /// The kernel parameter file that holds the congestion control algorithm.
    pub fn value_path(&self) -> (r: &'static str)
        ensures
            r@ == "/proc/sys/net/ipv4/tcp_congestion_control"@,
    {
        "/proc/sys/net/ipv4/tcp_congestion_control"
    }

    /// The writes that apply the tweak, in order: the `fq` queueing
    /// discipline, then the `bbr` algorithm. The option is not used.
    pub fn apply_writes(&self, option_value: Option<&str>) -> (r: Vec<SettingWrite>)
        ensures
            r@.len() == 2,
            writes(r@[0], "/proc/sys/net/core/default_qdisc"@, "fq"@),
            writes(r@[1], "/proc/sys/net/ipv4/tcp_congestion_control"@, "bbr"@),
    {
        let mut v = Vec::new();
        v.push(setting_write("/proc/sys/net/core/default_qdisc", "fq"));
        v.push(setting_write("/proc/sys/net/ipv4/tcp_congestion_control", "bbr"));
        v
    }

    /// The kernel parameter file that holds the default queueing discipline,
    /// which the tweak sets too.
    pub fn qdisc_path(&self) -> (r: &'static str)
        ensures
            r@ == "/proc/sys/net/core/default_qdisc"@,
    {
        "/proc/sys/net/core/default_qdisc"
    }

    /// The value to back up, from the two parameters as read: none when the
    /// congestion algorithm cannot be read (the tweak is not supported), else
    /// `qdisc:algorithm`, with an empty queueing discipline when that one
    /// cannot be read.
    pub fn read_value(&self, qdisc: Option<String>, algorithm: Option<String>) -> (r: Option<String>)
        ensures
            algorithm is None ==> r is None,
            algorithm matches Some(a) ==> (r matches Some(v) && v@ == bbr_value_spec(
                string_option_view(qdisc),
                a@,
            )),
    {
        match algorithm {
            None => None,
            Some(a) => {
                let q = match qdisc {
                    Some(q) => q,
                    None => String::new(),
                };
                Some(join_pair(q.as_str(), a.as_str()))
            },
        }
    }

    /// The writes that put back `original_value`: for a `qdisc:algorithm`
    /// backup, the queueing discipline (when one was read) and then the
    /// algorithm; for a backup without a colon, the algorithm alone.
    pub fn revert_writes(&self, original_value: &str) -> (r: Vec<SettingWrite>)
        ensures
            bbr_revert_writes(r@, original_value@),
    {
        let mut v = Vec::new();
        match colon_pair(original_value) {
            Some((q, a)) => {
                if !q.as_str().is_empty() {
                    v.push(setting_write("/proc/sys/net/core/default_qdisc", q.as_str()));
                }
                v.push(setting_write("/proc/sys/net/ipv4/tcp_congestion_control", a.as_str()));
            },
            None => {
                v.push(setting_write("/proc/sys/net/ipv4/tcp_congestion_control", original_value));
            },
        }
        v
    }
}

/// A value that could be read, or nothing.
pub open spec fn or_empty(v: Option<Seq<char>>) -> Seq<char> {
    match v {
        Some(x) => x,
        None => Seq::empty(),
    }
}

/// The value backed up for BBR: `qdisc:algorithm`.
pub open spec fn bbr_value_spec(qdisc: Option<Seq<char>>, algorithm: Seq<char>) -> Seq<char> {
    or_empty(qdisc) + seq![':'] + algorithm
}

/// Whether `ws` are the writes that put back the BBR backup `original`.
pub open spec fn bbr_revert_writes(ws: Seq<SettingWrite>, original: Seq<char>) -> bool {
    match colon_pair_spec(original) {
        Some((q, a)) => if q.len() > 0 {
            &&& ws.len() == 2
            &&& writes(ws[0], "/proc/sys/net/core/default_qdisc"@, q)
            &&& writes(ws[1], "/proc/sys/net/ipv4/tcp_congestion_control"@, a)
        } else {
            &&& ws.len() == 1
            &&& writes(ws[0], "/proc/sys/net/ipv4/tcp_congestion_control"@, a)
        },
        None => {
            &&& ws.len() == 1
            &&& writes(ws[0], "/proc/sys/net/ipv4/tcp_congestion_control"@, original)
        },
    }
}

/// Reverting BBR with the value that was read writes back both parameters
/// as they were read (the queueing discipline only when it could be read),
/// when neither holds a colon.
pub proof fn lemma_bbr_roundtrip(qdisc: Option<Seq<char>>, algorithm: Seq<char>)
    requires
        forall|i: int| 0 <= i < or_empty(qdisc).len() ==> #[trigger] or_empty(qdisc)[i] != ':',
        forall|i: int| 0 <= i < algorithm.len() ==> #[trigger] algorithm[i] != ':',
    ensures
        colon_pair_spec(bbr_value_spec(qdisc, algorithm)) == Some((or_empty(qdisc), algorithm)),
{
    lemma_colon_pair_roundtrip(or_empty(qdisc), algorithm);
}

/// Enlarges the kernel's receive backlog.
pub struct NetdevMaxBacklogTweak;

impl Tweak for NetdevMaxBacklogTweak {
    open spec fn spec_id(&self) -> Seq<char> {
        "linux_netdev_max_backlog"@
    }

    open spec fn spec_name(&self) -> Seq<char> {
        "Netdev Max Backlog"@
    }

    open spec fn spec_description(&self) -> Seq<char> {
        "Aumenta a fila de recepção do kernel para lidar melhor com picos de pacotes sem descartá-los (jitter)."@
    }

    open spec fn spec_supported_os(&self) -> Seq<OsPlatform> {
        seq![OsPlatform::Linux]
    }

    open spec fn spec_requires_reboot(&self) -> bool {
        false
    }

    fn id(&self) -> (r: &'static str) {
        "linux_netdev_max_backlog"
    }

    fn name(&self) -> (r: &'static str) {
        "Netdev Max Backlog"
    }

    fn description(&self) -> (r: &'static str) {
        "Aumenta a fila de recepção do kernel para lidar melhor com picos de pacotes sem descartá-los (jitter)."
    }

    fn supported_os(&self) -> (r: Vec<OsPlatform>) {
        let mut v = Vec::new();
        v.push(OsPlatform::Linux);
        v
    }

    fn requires_reboot(&self) -> (r: bool) {
        false
    }
}

impl NetdevMaxBacklogTweak {
    /// The kernel parameter file that holds the backlog size.
    pub fn value_path(&self) -> (r: &'static str)
        ensures
            r@ == "/proc/sys/net/core/netdev_max_backlog"@,
    {
        "/proc/sys/net/core/netdev_max_backlog"
    }

    /// The write that applies the tweak: the given value, `5000` when none
    /// is given.
    pub fn apply_writes(&self, option_value: Option<&str>) -> (r: Vec<SettingWrite>)
        ensures
            r@.len() == 1,
            writes(
                r@[0],
                "/proc/sys/net/core/netdev_max_backlog"@,
                match option_value {
                    Some(v) => v@,
                    None => "5000"@,
                },
            ),
    {
        let val = match option_value {
            Some(v) => v,
            None => "5000",
        };
        let mut v = Vec::new();
        v.push(setting_write("/proc/sys/net/core/netdev_max_backlog", val));
        v
    }

    /// The write that puts back `original_value`.
    pub fn revert_writes(&self, original_value: &str) -> (r: Vec<SettingWrite>)
        ensures
            r@.len() == 1,
            writes(r@[0], "/proc/sys/net/core/netdev_max_backlog"@, original_value@),
    {
        let mut v = Vec::new();
        v.push(setting_write("/proc/sys/net/core/netdev_max_backlog", original_value));
        v
    }
}

/// Makes the TCP stack prefer latency to throughput.
pub struct TcpLowLatencyTweak;

impl Tweak for TcpLowLatencyTweak {
    open spec fn spec_id(&self) -> Seq<char> {
        "linux_tcp_low_latency"@
    }

    open spec fn spec_name(&self) -> Seq<char> {
        "TCP Low Latency"@
    }

    open spec fn spec_description(&self) -> Seq<char> {
        "Instrui a pilha TCP a priorizar baixa latência sobre throughput bruto (desativa processamento em batch)."@
    }

    open spec fn spec_supported_os(&self) -> Seq<OsPlatform> {
        seq![OsPlatform::Linux]
    }

    open spec fn spec_requires_reboot(&self) -> bool {
        false
    }

    fn id(&self) -> (r: &'static str) {
        "linux_tcp_low_latency"
    }

    fn name(&self) -> (r: &'static str) {
        "TCP Low Latency"
    }

    fn description(&self) -> (r: &'static str) {
        "Instrui a pilha TCP a priorizar baixa latência sobre throughput bruto (desativa processamento em batch)."
    }

    fn supported_os(&self) -> (r: Vec<OsPlatform>) {
        let mut v = Vec::new();
        v.push(OsPlatform::Linux);
        v
    }

    fn requires_reboot(&self) -> (r: bool) {
        false
    }
}

impl TcpLowLatencyTweak {
    /// The kernel parameter file of the setting.
    pub fn value_path(&self) -> (r: &'static str)
        ensures
            r@ == "/proc/sys/net/ipv4/tcp_low_latency"@,
    {
        "/proc/sys/net/ipv4/tcp_low_latency"
    }

    /// The write that applies the tweak: `1`. The option is not used.
    pub fn apply_writes(&self, option_value: Option<&str>) -> (r: Vec<SettingWrite>)
        ensures
            r@.len() == 1,
            writes(r@[0], "/proc/sys/net/ipv4/tcp_low_latency"@, "1"@),
    {
        let mut v = Vec::new();
        v.push(setting_write("/proc/sys/net/ipv4/tcp_low_latency", "1"));
        v
    }

    /// The write that puts back `original_value`.
    pub fn revert_writes(&self, original_value: &str) -> (r: Vec<SettingWrite>)
        ensures
            r@.len() == 1,
            writes(r@[0], "/proc/sys/net/ipv4/tcp_low_latency"@, original_value@),
    {
        let mut v = Vec::new();
        v.push(setting_write("/proc/sys/net/ipv4/tcp_low_latency", original_value));
        v
    }
}

/// Turns off receive interrupt coalescing on the default interface.
pub struct InterruptCoalescingTweak;

impl Tweak for InterruptCoalescingTweak {
    open spec fn spec_id(&self) -> Seq<char> {
        "linux_interrupt_coalescing"@
    }

    open spec fn spec_name(&self) -> Seq<char> {
        "Interrupt Coalescing (ethtool)"@
    }

    open spec fn spec_description(&self) -> Seq<char> {
        "Desativa o rx-usecs usando ethtool na interface principal. Processa pacotes IMEDIATAMENTE."@
    }

    open spec fn spec_supported_os(&self) -> Seq<OsPlatform> {
        seq![OsPlatform::Linux]
    }

    open spec fn spec_requires_reboot(&self) -> bool {
        false
    }

    fn id(&self) -> (r: &'static str) {
        "linux_interrupt_coalescing"
    }

    fn name(&self) -> (r: &'static str) {
        "Interrupt Coalescing (ethtool)"
    }

    fn description(&self) -> (r: &'static str) {
        "Desativa o rx-usecs usando ethtool na interface principal. Processa pacotes IMEDIATAMENTE."
    }

    fn supported_os(&self) -> (r: Vec<OsPlatform>) {
        let mut v = Vec::new();
        v.push(OsPlatform::Linux);
        v
    }

    fn requires_reboot(&self) -> (r: bool) {
        false
    }
}

/// The non-empty pieces of `pieces`, in order: the words of a
/// whitespace split, as `split_whitespace` gives them.
pub open spec fn nonempty_pieces(pieces: Seq<Seq<char>>) -> Seq<Seq<char>>
    decreases pieces.len(),
{
    if pieces.len() == 0 {
        pieces
    } else {
        let w = nonempty_pieces(pieces.drop_last());
        if pieces.last().len() > 0 {
            w.push(pieces.last())
        } else {
            w
        }
    }
}

/// The words of `s`, separated by whitespace.
pub open spec fn words(s: Seq<char>) -> Seq<Seq<char>> {
    nonempty_pieces(split(s, Separator::Whitespace))
}

/// The word after the first word `dev`, or nothing when there is none.
pub open spec fn word_after_dev(ws: Seq<Seq<char>>) -> Seq<char>
    decreases ws.len(),
{
    if ws.len() == 0 {
        Seq::empty()
    } else if ws[0] == "dev"@ {
        if ws.len() > 1 {
            ws[1]
        } else {
            Seq::empty()
        }
    } else {
        word_after_dev(ws.drop_first())
    }
}

/// The default interface named by the output of `ip route show default`;
/// empty when the command failed or names none.
pub open spec fn default_interface_spec(succeeded: bool, output: Seq<char>) -> Seq<char> {
    if succeeded {
        word_after_dev(words(output))
    } else {
        Seq::empty()
    }
}

/// The value of the first line of `lines` that, trimmed, starts with
/// `rx-usecs:` and splits at `:` into two parts: its second part, trimmed.
pub open spec fn rx_usecs_in(lines: Seq<Seq<char>>) -> Option<Seq<char>>
    decreases lines.len(),
{
    if lines.len() == 0 {
        None
    } else {
        let l = lines[0];
        let parts = split(l, Separator::Char(':'));
        if "rx-usecs:"@.is_prefix_of(trim(l)) && parts.len() == 2 {
            Some(trim(parts[1]))
        } else {
            rx_usecs_in(lines.drop_first())
        }
    }
}

/// The `rx-usecs` setting that `ethtool -c` reports; none when the command
/// failed or reports none.
pub open spec fn coalescing_value_spec(succeeded: bool, output: Seq<char>) -> Option<Seq<char>> {
    if succeeded {
        rx_usecs_in(split(output, Separator::Char('\n')))
    } else {
        None
    }
}

proof fn lemma_word_after_first_dev(ws: Seq<Seq<char>>, k: int)
    requires
        0 <= k < ws.len(),
        ws[k] == "dev"@,
        forall|j: int| 0 <= j < k ==> #[trigger] ws[j] != "dev"@,
    ensures
        word_after_dev(ws) == if k + 1 < ws.len() {
            ws[k + 1]
        } else {
            Seq::<char>::empty()
        },
    decreases k,
{
    if k > 0 {
        let rest = ws.drop_first();
        assert(ws[0] != "dev"@);
        assert forall|j: int| 0 <= j < k - 1 implies #[trigger] rest[j] != "dev"@ by {
            assert(rest[j] == ws[j + 1]);
        }
        assert(rest[k - 1] == ws[k]);
        lemma_word_after_first_dev(rest, k - 1);
        if k + 1 < ws.len() {
            assert(rest[k] == ws[k + 1]);
        }
    }
}

proof fn lemma_word_after_no_dev(ws: Seq<Seq<char>>)
    requires
        forall|j: int| 0 <= j < ws.len() ==> #[trigger] ws[j] != "dev"@,
    ensures
        word_after_dev(ws) == Seq::<char>::empty(),
    decreases ws.len(),
{
    if ws.len() > 0 {
        let rest = ws.drop_first();
        assert(ws[0] != "dev"@);
        assert forall|j: int| 0 <= j < rest.len() implies #[trigger] rest[j] != "dev"@ by {
            assert(rest[j] == ws[j + 1]);
        }
        lemma_word_after_no_dev(rest);
    }
}

/// The default interface is the word that follows the first word `dev` of
/// the output, whatever the other words are; nothing when that `dev` is
/// the last word.
pub proof fn lemma_default_interface_first_dev(output: Seq<char>, k: int)
    requires
        0 <= k < words(output).len(),
        words(output)[k] == "dev"@,
        forall|j: int| 0 <= j < k ==> #[trigger] words(output)[j] != "dev"@,
    ensures
        default_interface_spec(true, output) == if k + 1 < words(output).len() {
            words(output)[k + 1]
        } else {
            Seq::<char>::empty()
        },
{
    lemma_word_after_first_dev(words(output), k);
}

/// Without a word `dev` in the output, or when the command failed, there is
/// no default interface.
pub proof fn lemma_default_interface_no_dev(output: Seq<char>)
    requires
        forall|j: int| 0 <= j < words(output).len() ==> #[trigger] words(output)[j] != "dev"@,
    ensures
        default_interface_spec(true, output) == Seq::<char>::empty(),
        default_interface_spec(false, output) == Seq::<char>::empty(),
{
    lemma_word_after_no_dev(words(output));
}

/// A leading `dev` names the word after it, whatever follows.
pub proof fn lemma_word_after_leading_dev(x: Seq<char>, rest: Seq<Seq<char>>)
    ensures
        word_after_dev(seq!["dev"@, x] + rest) == x,
{
    let ws = seq!["dev"@, x] + rest;
    assert(ws[0] == "dev"@);
    assert(ws[1] == x);
}

proof fn lemma_rx_usecs_first_line(lines: Seq<Seq<char>>, k: int)
    requires
        0 <= k < lines.len(),
        "rx-usecs:"@.is_prefix_of(trim(lines[k])),
        split(lines[k], Separator::Char(':')).len() == 2,
        forall|j: int|
            0 <= j < k ==> !("rx-usecs:"@.is_prefix_of(trim(#[trigger] lines[j])) && split(
                lines[j],
                Separator::Char(':'),
            ).len() == 2),
    ensures
        rx_usecs_in(lines) == Some(trim(split(lines[k], Separator::Char(':'))[1])),
    decreases k,
{
    if k > 0 {
        let rest = lines.drop_first();
        assert(!("rx-usecs:"@.is_prefix_of(trim(lines[0])) && split(
            lines[0],
            Separator::Char(':'),
        ).len() == 2));
        assert forall|j: int| 0 <= j < k - 1 implies !("rx-usecs:"@.is_prefix_of(
            trim(#[trigger] rest[j]),
        ) && split(rest[j], Separator::Char(':')).len() == 2) by {
            assert(rest[j] == lines[j + 1]);
        }
        assert(rest[k - 1] == lines[k]);
        lemma_rx_usecs_first_line(rest, k - 1);
    }
}

proof fn lemma_rx_usecs_no_line(lines: Seq<Seq<char>>)
    requires
        forall|j: int|
            0 <= j < lines.len() ==> !("rx-usecs:"@.is_prefix_of(trim(#[trigger] lines[j]))
                && split(lines[j], Separator::Char(':')).len() == 2),
    ensures
        rx_usecs_in(lines) is None,
    decreases lines.len(),
{
    if lines.len() > 0 {
        let rest = lines.drop_first();
        assert(!("rx-usecs:"@.is_prefix_of(trim(lines[0])) && split(
            lines[0],
            Separator::Char(':'),
        ).len() == 2));
        assert forall|j: int| 0 <= j < rest.len() implies !("rx-usecs:"@.is_prefix_of(
            trim(#[trigger] rest[j]),
        ) && split(rest[j], Separator::Char(':')).len() == 2) by {
            assert(rest[j] == lines[j + 1]);
        }
        lemma_rx_usecs_no_line(rest);
    }
}

/// The `rx-usecs` value that `ethtool -c` reports is read from the first
/// line of the output whose trimmed text starts with `rx-usecs:` and that
/// splits at `:` into two parts: its second part, trimmed. Later lines,
/// such as `rx-usecs-irq:`, do not change it.
pub proof fn lemma_coalescing_value_first_line(output: Seq<char>, k: int)
    requires
        0 <= k < split(output, Separator::Char('\n')).len(),
        "rx-usecs:"@.is_prefix_of(trim(split(output, Separator::Char('\n'))[k])),
        split(split(output, Separator::Char('\n'))[k], Separator::Char(':')).len() == 2,
        forall|j: int|
            0 <= j < k ==> !("rx-usecs:"@.is_prefix_of(
                trim(#[trigger] split(output, Separator::Char('\n'))[j]),
            ) && split(split(output, Separator::Char('\n'))[j], Separator::Char(':')).len()
                == 2),
    ensures
        coalescing_value_spec(true, output) == Some(
            trim(split(split(output, Separator::Char('\n'))[k], Separator::Char(':'))[1]),
        ),
{
    lemma_rx_usecs_first_line(split(output, Separator::Char('\n')), k);
}

/// Without such a line, or when the command failed, no value is read.
pub proof fn lemma_coalescing_value_no_line(output: Seq<char>)
    requires
        forall|j: int|
            0 <= j < split(output, Separator::Char('\n')).len() ==> !("rx-usecs:"@.is_prefix_of(
                trim(#[trigger] split(output, Separator::Char('\n'))[j]),
            ) && split(split(output, Separator::Char('\n'))[j], Separator::Char(':')).len()
                == 2),
    ensures
        coalescing_value_spec(true, output) is None,
        coalescing_value_spec(false, output) is None,
{
    lemma_rx_usecs_no_line(split(output, Separator::Char('\n')));
}

/// A line that starts with `rx-usecs:` and splits into two parts gives its
/// value, whatever follows; a line that starts with `rx-usecs-irq:` is
/// passed over.
pub proof fn lemma_rx_usecs_line_kinds(l: Seq<char>, rest: Seq<Seq<char>>)
    ensures
        "rx-usecs:"@.is_prefix_of(trim(l)) && split(l, Separator::Char(':')).len() == 2
            ==> rx_usecs_in(seq![l] + rest) == Some(trim(split(l, Separator::Char(':'))[1])),
        "rx-usecs-irq:"@.is_prefix_of(trim(l)) ==> rx_usecs_in(seq![l] + rest) == rx_usecs_in(
            rest,
        ),
{
    let ls = seq![l] + rest;
    assert(ls[0] == l);
    assert(ls.drop_first() =~= rest);
    if "rx-usecs-irq:"@.is_prefix_of(trim(l)) {
        reveal_strlit("rx-usecs-irq:");
        reveal_strlit("rx-usecs:");
        assert(trim(l)[8] == "rx-usecs-irq:"@[8]);
        assert(!"rx-usecs:"@.is_prefix_of(trim(l)));
    }
}

/// Whether the ranges `rs` of `cs` spell the pieces `ps`.
pub open spec fn ranges_spell(cs: Seq<char>, rs: Seq<(usize, usize)>, ps: Seq<Seq<char>>) -> bool {
    &&& rs.len() == ps.len()
    &&& forall|k: int|
        0 <= k < rs.len() ==> (#[trigger] rs[k]).0 <= rs[k].1 <= cs.len() && cs.subrange(
            rs[k].0 as int,
            rs[k].1 as int,
        ) == ps[k]
}

fn vec_of_strings(a: &str, b: &str) -> (r: Vec<String>)
    ensures
        r@.len() == 2,
        r@[0]@ == a@,
        r@[1]@ == b@,
{
    let mut v = Vec::new();
    v.push(a.to_owned());
    v.push(b.to_owned());
    v
}

impl InterruptCoalescingTweak {
    /// The program that reports the routing table.
    pub fn route_program(&self) -> (r: &'static str)
        ensures
            r@ == "ip"@,
    {
        "ip"
    }

    /// The arguments that ask for the default route.
    pub fn route_args(&self) -> (r: Vec<String>)
        ensures
            r@.len() == 3,
            r@[0]@ == "route"@,
            r@[1]@ == "show"@,
            r@[2]@ == "default"@,
    {
        let mut v = vec_of_strings("route", "show");
        v.push("default".to_owned());
        v
    }

    /// The program that reads and sets the interrupt coalescing.
    pub fn ethtool_program(&self) -> (r: &'static str)
        ensures
            r@ == "ethtool"@,
    {
        "ethtool"
    }

    /// The default interface, from whether `ip route show default`
    /// succeeded and what it printed: the word after `dev`, or an empty
    /// string.
    pub fn default_interface(&self, succeeded: bool, route_output: &str) -> (r: String)
        ensures
            r@ == default_interface_spec(succeeded, route_output@),
    {
        if !succeeded {
            return String::new();
        }
        let cs = chars_of(route_output);
        let pieces = split_ranges(&cs, 0, cs.len(), Separator::Whitespace);
        let ghost ps = split(cs@, Separator::Whitespace);
        assert(cs@.subrange(0, cs@.len() as int) =~= cs@);
        let mut ws: Vec<(usize, usize)> = Vec::new();
        let mut k: usize = 0;
        assert(ps.take(0) =~= Seq::<Seq<char>>::empty());
        while k < pieces.len()
            invariant
                k <= pieces@.len() == ps.len(),
                cs@ == route_output@,
                ps == split(cs@, Separator::Whitespace),
                ranges_spell(cs@, pieces@, ps),
                ranges_spell(cs@, ws@, nonempty_pieces(ps.take(k as int))),
            decreases pieces@.len() - k,
        {
            let (a, b) = pieces[k];
            assert(ps.take(k + 1).drop_last() =~= ps.take(k as int));
            assert(ps.take(k + 1).last() == ps[k as int]);
            assert(cs@.subrange(a as int, b as int) == ps[k as int]);
            if a < b {
                ws.push((a, b));
            }
            k = k + 1;
        }
        assert(ps.take(pieces@.len() as int) =~= ps);
        let ghost w = words(cs@);
        let dev = chars_of("dev");
        let mut j: usize = 0;
        assert(w.skip(0) =~= w);
        while j < ws.len()
            invariant
                j <= ws@.len() == w.len(),
                succeeded,
                cs@ == route_output@,
                w == words(cs@),
                dev@ == "dev"@,
                ranges_spell(cs@, ws@, w),
                word_after_dev(w) == word_after_dev(w.skip(j as int)),
            decreases ws@.len() - j,
        {
            assert(w.skip(j as int).drop_first() =~= w.skip(j + 1));
            assert(w.skip(j as int)[0] == w[j as int]);
            let (a, b) = ws[j];
            assert(cs@.subrange(a as int, b as int) == w[j as int]);
            if range_equals(&cs, a, b, &dev) {
                assert(w.skip(j as int)[0] == "dev"@);
                if j + 1 < ws.len() {
                    let (c, d) = ws[j + 1];
                    assert(w.skip(j as int)[1] == w[j + 1]);
                    assert(cs@.subrange(c as int, d as int) == w[j + 1]);
                    assert(word_after_dev(w.skip(j as int)) == w[j + 1]);
                    return string_of_range(route_output, c, d);
                } else {
                    return String::new();
                }
            }
            j = j + 1;
        }
        String::new()
    }

    /// The arguments that read the coalescing of `iface`; none when no
    /// interface was found.
    pub fn query_args(&self, iface: &str) -> (r: Option<Vec<String>>)
        ensures
            iface@.len() == 0 ==> r is None,
            iface@.len() > 0 ==> (r matches Some(v) && v@.len() == 2 && v@[0]@ == "-c"@
                && v@[1]@ == iface@),
    {
        if iface.is_empty() {
            None
        } else {
            Some(vec_of_strings("-c", iface))
        }
    }

    /// The current `rx-usecs` value, from whether `ethtool -c` succeeded and
    /// what it printed.
    pub fn coalescing_value(&self, succeeded: bool, ethtool_output: &str) -> (r: Option<String>)
        ensures
            match r {
                Some(v) => coalescing_value_spec(succeeded, ethtool_output@) == Some(v@),
                None => coalescing_value_spec(succeeded, ethtool_output@) is None,
            },
    {
        if !succeeded {
            return None;
        }
        let cs = chars_of(ethtool_output);
        let lines = split_ranges(&cs, 0, cs.len(), Separator::Char('\n'));
        let ghost ls = split(cs@, Separator::Char('\n'));
        assert(cs@.subrange(0, cs@.len() as int) =~= cs@);
        let prefix = chars_of("rx-usecs:");
        let mut k: usize = 0;
        assert(ls.skip(0) =~= ls);
        while k < lines.len()
            invariant
                k <= lines@.len() == ls.len(),
                succeeded,
                cs@ == ethtool_output@,
                ls == split(cs@, Separator::Char('\n')),
                prefix@ == "rx-usecs:"@,
                ranges_spell(cs@, lines@, ls),
                rx_usecs_in(ls) == rx_usecs_in(ls.skip(k as int)),
            decreases lines@.len() - k,
        {
            assert(ls.skip(k as int).drop_first() =~= ls.skip(k + 1));
            assert(ls.skip(k as int)[0] == ls[k as int]);
            let (a, b) = lines[k];
            assert(cs@.subrange(a as int, b as int) == ls[k as int]);
            let (ta, tb) = trim_range(&cs, a, b);
            if range_starts_with(&cs, ta, tb, &prefix) {
                let parts = split_ranges(&cs, a, b, Separator::Char(':'));
                if parts.len() == 2 {
                    let (pa, pb) = parts[1];
                    assert(cs@.subrange(pa as int, pb as int) == split(
                        ls[k as int],
                        Separator::Char(':'),
                    )[1]);
                    let (va, vb) = trim_range(&cs, pa, pb);
                    assert(rx_usecs_in(ls.skip(k as int)) == Some(
                        cs@.subrange(va as int, vb as int),
                    ));
                    return Some(string_of_range(ethtool_output, va, vb));
                }
            }
            k = k + 1;
        }
        None
    }

    /// The arguments that turn coalescing off on `iface`; none when no
    /// interface was found, which is an error.
    pub fn apply_args(&self, iface: &str) -> (r: Option<Vec<String>>)
        ensures
            iface@.len() == 0 ==> r is None,
            iface@.len() > 0 ==> (r matches Some(v) && v@.len() == 4 && v@[0]@ == "-C"@
                && v@[1]@ == iface@ && v@[2]@ == "rx-usecs"@ && v@[3]@ == "0"@),
    {
        if iface.is_empty() {
            None
        } else {
            let mut v = vec_of_strings("-C", iface);
            v.push("rx-usecs".to_owned());
            v.push("0".to_owned());
            Some(v)
        }
    }

    /// The arguments that put back `original_value` on `iface`; none when no
    /// interface was found, in which case nothing is done.
    pub fn revert_args(&self, iface: &str, original_value: &str) -> (r: Option<Vec<String>>)
        ensures
            iface@.len() == 0 ==> r is None,
            iface@.len() > 0 ==> (r matches Some(v) && v@.len() == 4 && v@[0]@ == "-C"@
                && v@[1]@ == iface@ && v@[2]@ == "rx-usecs"@ && v@[3]@ == original_value@),
    {
        if iface.is_empty() {
            None
        } else {
            let mut v = vec_of_strings("-C", iface);
            v.push("rx-usecs".to_owned());
            v.push(original_value.to_owned());
            Some(v)
        }
    }
}

} // verus!
