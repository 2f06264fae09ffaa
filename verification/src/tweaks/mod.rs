//! What every network tweak declares about itself, and the operations that
//! the tweaks ask of the operating system.

pub mod linux;
pub mod macos;
pub mod mock;
pub mod windows;

use vstd::prelude::*;

use crate::text::{trim, trim_str};
use crate::tweaks::linux::{
    InterruptCoalescingTweak, NetdevMaxBacklogTweak, TcpCongestionControlTweak, TcpLowLatencyTweak,
};
use crate::tweaks::macos::{DelayedAckTweak, TcpWindowSizeTweak};
use crate::tweaks::windows::{InterruptModerationTweak, NagleAlgorithmTweak, NetworkThrottlingTweak};

verus! {

/// An operating system that a tweak can run on.
#[derive(Debug, Clone, Copy, PartialEq, Eq, Hash, Structural)]
pub enum OsPlatform {
    Windows,
    Linux,
    MacOS,
}

/// A network setting of the operating system that can be tuned and put back.
pub trait Tweak {
    /// The tweak's unique identifier.
    spec fn spec_id(&self) -> Seq<char>;

    /// The tweak's readable name.
    spec fn spec_name(&self) -> Seq<char>;

    /// What the tweak does.
    spec fn spec_description(&self) -> Seq<char>;

    /// The systems the tweak supports.
    spec fn spec_supported_os(&self) -> Seq<OsPlatform>;

    /// Whether the machine must restart for the tweak to take effect.
    spec fn spec_requires_reboot(&self) -> bool;

    /// Unique identifier of the tweak (for example `tcp_nodelay`).
    fn id(&self) -> (r: &'static str)
        ensures
            r@ == self.spec_id(),
    ;

    /// Readable name of the tweak.
    fn name(&self) -> (r: &'static str)
        ensures
            r@ == self.spec_name(),
    ;

    /// Description of what the tweak does.
    fn description(&self) -> (r: &'static str)
        ensures
            r@ == self.spec_description(),
    ;

    /// The operating systems that support this tweak.
    fn supported_os(&self) -> (r: Vec<OsPlatform>)
        ensures
            r@ == self.spec_supported_os(),
    ;

    /// Whether the machine must be restarted after the tweak is applied.
    fn requires_reboot(&self) -> (r: bool)
        ensures
            r == self.spec_requires_reboot(),
    ;
}

/// One value to write into one named system setting: a file under
/// `/proc/sys` on Linux, a `sysctl` key on macOS.
pub struct SettingWrite {
    pub key: String,
    pub value: String,
}

/// Whether `w` writes `value` into `key`.
pub open spec fn writes(w: SettingWrite, key: Seq<char>, value: Seq<char>) -> bool {
    w.key@ == key && w.value@ == value
}

/// A write of `value` into `key`.
pub fn setting_write(key: &str, value: &str) -> (r: SettingWrite)
    ensures
        writes(r, key@, value@),
{
    SettingWrite { key: key.to_owned(), value: value.to_owned() }
}

/// The value that a command printed: its output without surrounding
/// whitespace, when the command succeeded and that is not empty.
pub open spec fn command_value_spec(succeeded: bool, output: Seq<char>) -> Option<Seq<char>> {
    if succeeded && trim(output).len() > 0 {
        Some(trim(output))
    } else {
        None
    }
}

/// The value that a command printed, from whether it succeeded and its
/// output: the trimmed output when it succeeded and that is not empty.
pub fn command_value(succeeded: bool, output: &str) -> (r: Option<String>)
    ensures
        match r {
            Some(v) => command_value_spec(succeeded, output@) == Some(v@),
            None => command_value_spec(succeeded, output@) is None,
        },
{
    if !succeeded {
        return None;
    }
    let v = trim_str(output);
    if v.as_str().is_empty() {
        None
    } else {
        Some(v)
    }
}

/// One of the system tweaks that the library offers.
#[derive(Debug, Clone, Copy, PartialEq, Eq, Structural)]
pub enum NetworkTweak {
    NetworkThrottling,
    NagleAlgorithm,
    InterruptModeration,
    TcpCongestionControl,
    NetdevMaxBacklog,
    TcpLowLatency,
    InterruptCoalescing,
    DelayedAck,
    TcpWindowSize,
}

impl Tweak for NetworkTweak {
    open spec fn spec_id(&self) -> Seq<char> {
        match self {
            NetworkTweak::NetworkThrottling => NetworkThrottlingTweak.spec_id(),
            NetworkTweak::NagleAlgorithm => NagleAlgorithmTweak.spec_id(),
            NetworkTweak::InterruptModeration => InterruptModerationTweak.spec_id(),
            NetworkTweak::TcpCongestionControl => TcpCongestionControlTweak.spec_id(),
            NetworkTweak::NetdevMaxBacklog => NetdevMaxBacklogTweak.spec_id(),
            NetworkTweak::TcpLowLatency => TcpLowLatencyTweak.spec_id(),
            NetworkTweak::InterruptCoalescing => InterruptCoalescingTweak.spec_id(),
            NetworkTweak::DelayedAck => DelayedAckTweak.spec_id(),
            NetworkTweak::TcpWindowSize => TcpWindowSizeTweak.spec_id(),
        }
    }

    open spec fn spec_name(&self) -> Seq<char> {
        match self {
            NetworkTweak::NetworkThrottling => NetworkThrottlingTweak.spec_name(),
            NetworkTweak::NagleAlgorithm => NagleAlgorithmTweak.spec_name(),
            NetworkTweak::InterruptModeration => InterruptModerationTweak.spec_name(),
            NetworkTweak::TcpCongestionControl => TcpCongestionControlTweak.spec_name(),
            NetworkTweak::NetdevMaxBacklog => NetdevMaxBacklogTweak.spec_name(),
            NetworkTweak::TcpLowLatency => TcpLowLatencyTweak.spec_name(),
            NetworkTweak::InterruptCoalescing => InterruptCoalescingTweak.spec_name(),
            NetworkTweak::DelayedAck => DelayedAckTweak.spec_name(),
            NetworkTweak::TcpWindowSize => TcpWindowSizeTweak.spec_name(),
        }
    }

    open spec fn spec_description(&self) -> Seq<char> {
        match self {
            NetworkTweak::NetworkThrottling => NetworkThrottlingTweak.spec_description(),
            NetworkTweak::NagleAlgorithm => NagleAlgorithmTweak.spec_description(),
            NetworkTweak::InterruptModeration => InterruptModerationTweak.spec_description(),
            NetworkTweak::TcpCongestionControl => TcpCongestionControlTweak.spec_description(),
            NetworkTweak::NetdevMaxBacklog => NetdevMaxBacklogTweak.spec_description(),
            NetworkTweak::TcpLowLatency => TcpLowLatencyTweak.spec_description(),
            NetworkTweak::InterruptCoalescing => InterruptCoalescingTweak.spec_description(),
            NetworkTweak::DelayedAck => DelayedAckTweak.spec_description(),
            NetworkTweak::TcpWindowSize => TcpWindowSizeTweak.spec_description(),
        }
    }

    open spec fn spec_supported_os(&self) -> Seq<OsPlatform> {
        match self {
            NetworkTweak::NetworkThrottling => NetworkThrottlingTweak.spec_supported_os(),
            NetworkTweak::NagleAlgorithm => NagleAlgorithmTweak.spec_supported_os(),
            NetworkTweak::InterruptModeration => InterruptModerationTweak.spec_supported_os(),
            NetworkTweak::TcpCongestionControl => TcpCongestionControlTweak.spec_supported_os(),
            NetworkTweak::NetdevMaxBacklog => NetdevMaxBacklogTweak.spec_supported_os(),
            NetworkTweak::TcpLowLatency => TcpLowLatencyTweak.spec_supported_os(),
            NetworkTweak::InterruptCoalescing => InterruptCoalescingTweak.spec_supported_os(),
            NetworkTweak::DelayedAck => DelayedAckTweak.spec_supported_os(),
            NetworkTweak::TcpWindowSize => TcpWindowSizeTweak.spec_supported_os(),
        }
    }

    open spec fn spec_requires_reboot(&self) -> bool {
        match self {
            NetworkTweak::NetworkThrottling => NetworkThrottlingTweak.spec_requires_reboot(),
            NetworkTweak::NagleAlgorithm => NagleAlgorithmTweak.spec_requires_reboot(),
            NetworkTweak::InterruptModeration => InterruptModerationTweak.spec_requires_reboot(),
            NetworkTweak::TcpCongestionControl => TcpCongestionControlTweak.spec_requires_reboot(),
            NetworkTweak::NetdevMaxBacklog => NetdevMaxBacklogTweak.spec_requires_reboot(),
            NetworkTweak::TcpLowLatency => TcpLowLatencyTweak.spec_requires_reboot(),
            NetworkTweak::InterruptCoalescing => InterruptCoalescingTweak.spec_requires_reboot(),
            NetworkTweak::DelayedAck => DelayedAckTweak.spec_requires_reboot(),
            NetworkTweak::TcpWindowSize => TcpWindowSizeTweak.spec_requires_reboot(),
        }
    }

    fn id(&self) -> (r: &'static str) {
        match self {
            NetworkTweak::NetworkThrottling => NetworkThrottlingTweak.id(),
            NetworkTweak::NagleAlgorithm => NagleAlgorithmTweak.id(),
            NetworkTweak::InterruptModeration => InterruptModerationTweak.id(),
            NetworkTweak::TcpCongestionControl => TcpCongestionControlTweak.id(),
            NetworkTweak::NetdevMaxBacklog => NetdevMaxBacklogTweak.id(),
            NetworkTweak::TcpLowLatency => TcpLowLatencyTweak.id(),
            NetworkTweak::InterruptCoalescing => InterruptCoalescingTweak.id(),
            NetworkTweak::DelayedAck => DelayedAckTweak.id(),
            NetworkTweak::TcpWindowSize => TcpWindowSizeTweak.id(),
        }
    }

    fn name(&self) -> (r: &'static str) {
        match self {
            NetworkTweak::NetworkThrottling => NetworkThrottlingTweak.name(),
            NetworkTweak::NagleAlgorithm => NagleAlgorithmTweak.name(),
            NetworkTweak::InterruptModeration => InterruptModerationTweak.name(),
            NetworkTweak::TcpCongestionControl => TcpCongestionControlTweak.name(),
            NetworkTweak::NetdevMaxBacklog => NetdevMaxBacklogTweak.name(),
            NetworkTweak::TcpLowLatency => TcpLowLatencyTweak.name(),
            NetworkTweak::InterruptCoalescing => InterruptCoalescingTweak.name(),
            NetworkTweak::DelayedAck => DelayedAckTweak.name(),
            NetworkTweak::TcpWindowSize => TcpWindowSizeTweak.name(),
        }
    }

    fn description(&self) -> (r: &'static str) {
        match self {
            NetworkTweak::NetworkThrottling => NetworkThrottlingTweak.description(),
            NetworkTweak::NagleAlgorithm => NagleAlgorithmTweak.description(),
            NetworkTweak::InterruptModeration => InterruptModerationTweak.description(),
            NetworkTweak::TcpCongestionControl => TcpCongestionControlTweak.description(),
            NetworkTweak::NetdevMaxBacklog => NetdevMaxBacklogTweak.description(),
            NetworkTweak::TcpLowLatency => TcpLowLatencyTweak.description(),
            NetworkTweak::InterruptCoalescing => InterruptCoalescingTweak.description(),
            NetworkTweak::DelayedAck => DelayedAckTweak.description(),
            NetworkTweak::TcpWindowSize => TcpWindowSizeTweak.description(),
        }
    }

    fn supported_os(&self) -> (r: Vec<OsPlatform>) {
        match self {
            NetworkTweak::NetworkThrottling => NetworkThrottlingTweak.supported_os(),
            NetworkTweak::NagleAlgorithm => NagleAlgorithmTweak.supported_os(),
            NetworkTweak::InterruptModeration => InterruptModerationTweak.supported_os(),
            NetworkTweak::TcpCongestionControl => TcpCongestionControlTweak.supported_os(),
            NetworkTweak::NetdevMaxBacklog => NetdevMaxBacklogTweak.supported_os(),
            NetworkTweak::TcpLowLatency => TcpLowLatencyTweak.supported_os(),
            NetworkTweak::InterruptCoalescing => InterruptCoalescingTweak.supported_os(),
            NetworkTweak::DelayedAck => DelayedAckTweak.supported_os(),
            NetworkTweak::TcpWindowSize => TcpWindowSizeTweak.supported_os(),
        }
    }

    fn requires_reboot(&self) -> (r: bool) {
        match self {
            NetworkTweak::NetworkThrottling => NetworkThrottlingTweak.requires_reboot(),
            NetworkTweak::NagleAlgorithm => NagleAlgorithmTweak.requires_reboot(),
            NetworkTweak::InterruptModeration => InterruptModerationTweak.requires_reboot(),
            NetworkTweak::TcpCongestionControl => TcpCongestionControlTweak.requires_reboot(),
            NetworkTweak::NetdevMaxBacklog => NetdevMaxBacklogTweak.requires_reboot(),
            NetworkTweak::TcpLowLatency => TcpLowLatencyTweak.requires_reboot(),
            NetworkTweak::InterruptCoalescing => InterruptCoalescingTweak.requires_reboot(),
            NetworkTweak::DelayedAck => DelayedAckTweak.requires_reboot(),
            NetworkTweak::TcpWindowSize => TcpWindowSizeTweak.requires_reboot(),
        }
    }
}

/// Each tweak of the library is the tweak of the same name: the same
/// identifier, name, description, systems and need of a restart.
pub proof fn lemma_network_tweak_is_its_tweak()
    ensures
        NetworkTweak::NetworkThrottling.spec_id() == NetworkThrottlingTweak.spec_id(),
        NetworkTweak::NetworkThrottling.spec_name() == NetworkThrottlingTweak.spec_name(),
        NetworkTweak::NetworkThrottling.spec_description() == NetworkThrottlingTweak.spec_description(),
        NetworkTweak::NetworkThrottling.spec_supported_os() == NetworkThrottlingTweak.spec_supported_os(),
        NetworkTweak::NetworkThrottling.spec_requires_reboot() == NetworkThrottlingTweak.spec_requires_reboot(),
        NetworkTweak::NagleAlgorithm.spec_id() == NagleAlgorithmTweak.spec_id(),
        NetworkTweak::NagleAlgorithm.spec_name() == NagleAlgorithmTweak.spec_name(),
        NetworkTweak::NagleAlgorithm.spec_description() == NagleAlgorithmTweak.spec_description(),
        NetworkTweak::NagleAlgorithm.spec_supported_os() == NagleAlgorithmTweak.spec_supported_os(),
        NetworkTweak::NagleAlgorithm.spec_requires_reboot() == NagleAlgorithmTweak.spec_requires_reboot(),
        NetworkTweak::InterruptModeration.spec_id() == InterruptModerationTweak.spec_id(),
        NetworkTweak::InterruptModeration.spec_name() == InterruptModerationTweak.spec_name(),
        NetworkTweak::InterruptModeration.spec_description() == InterruptModerationTweak.spec_description(),
        NetworkTweak::InterruptModeration.spec_supported_os() == InterruptModerationTweak.spec_supported_os(),
        NetworkTweak::InterruptModeration.spec_requires_reboot() == InterruptModerationTweak.spec_requires_reboot(),
        NetworkTweak::TcpCongestionControl.spec_id() == TcpCongestionControlTweak.spec_id(),
        NetworkTweak::TcpCongestionControl.spec_name() == TcpCongestionControlTweak.spec_name(),
        NetworkTweak::TcpCongestionControl.spec_description() == TcpCongestionControlTweak.spec_description(),
        NetworkTweak::TcpCongestionControl.spec_supported_os() == TcpCongestionControlTweak.spec_supported_os(),
        NetworkTweak::TcpCongestionControl.spec_requires_reboot() == TcpCongestionControlTweak.spec_requires_reboot(),
        NetworkTweak::NetdevMaxBacklog.spec_id() == NetdevMaxBacklogTweak.spec_id(),
        NetworkTweak::NetdevMaxBacklog.spec_name() == NetdevMaxBacklogTweak.spec_name(),
        NetworkTweak::NetdevMaxBacklog.spec_description() == NetdevMaxBacklogTweak.spec_description(),
        NetworkTweak::NetdevMaxBacklog.spec_supported_os() == NetdevMaxBacklogTweak.spec_supported_os(),
        NetworkTweak::NetdevMaxBacklog.spec_requires_reboot() == NetdevMaxBacklogTweak.spec_requires_reboot(),
        NetworkTweak::TcpLowLatency.spec_id() == TcpLowLatencyTweak.spec_id(),
        NetworkTweak::TcpLowLatency.spec_name() == TcpLowLatencyTweak.spec_name(),
        NetworkTweak::TcpLowLatency.spec_description() == TcpLowLatencyTweak.spec_description(),
        NetworkTweak::TcpLowLatency.spec_supported_os() == TcpLowLatencyTweak.spec_supported_os(),
        NetworkTweak::TcpLowLatency.spec_requires_reboot() == TcpLowLatencyTweak.spec_requires_reboot(),
        NetworkTweak::InterruptCoalescing.spec_id() == InterruptCoalescingTweak.spec_id(),
        NetworkTweak::InterruptCoalescing.spec_name() == InterruptCoalescingTweak.spec_name(),
        NetworkTweak::InterruptCoalescing.spec_description() == InterruptCoalescingTweak.spec_description(),
        NetworkTweak::InterruptCoalescing.spec_supported_os() == InterruptCoalescingTweak.spec_supported_os(),
        NetworkTweak::InterruptCoalescing.spec_requires_reboot() == InterruptCoalescingTweak.spec_requires_reboot(),
        NetworkTweak::DelayedAck.spec_id() == DelayedAckTweak.spec_id(),
        NetworkTweak::DelayedAck.spec_name() == DelayedAckTweak.spec_name(),
        NetworkTweak::DelayedAck.spec_description() == DelayedAckTweak.spec_description(),
        NetworkTweak::DelayedAck.spec_supported_os() == DelayedAckTweak.spec_supported_os(),
        NetworkTweak::DelayedAck.spec_requires_reboot() == DelayedAckTweak.spec_requires_reboot(),
        NetworkTweak::TcpWindowSize.spec_id() == TcpWindowSizeTweak.spec_id(),
        NetworkTweak::TcpWindowSize.spec_name() == TcpWindowSizeTweak.spec_name(),
        NetworkTweak::TcpWindowSize.spec_description() == TcpWindowSizeTweak.spec_description(),
        NetworkTweak::TcpWindowSize.spec_supported_os() == TcpWindowSizeTweak.spec_supported_os(),
        NetworkTweak::TcpWindowSize.spec_requires_reboot() == TcpWindowSizeTweak.spec_requires_reboot(),
{
}

/// The name and the description that each tweak of the library shows.
pub proof fn lemma_network_tweak_texts()
    ensures
        NetworkTweak::NetworkThrottling.spec_name() == "Desabilitar Network Throttling"@,
        NetworkTweak::NetworkThrottling.spec_description() == "Desativa o limite de taxa de pacotes multimidia do Windows, o que pode reduzir a latência em jogos."@,
        NetworkTweak::NagleAlgorithm.spec_name() == "Desabilitar Nagle's Algorithm (TcpAckFrequency & TCPNoDelay)"@,
        NetworkTweak::NagleAlgorithm.spec_description() == "Desabilita o algoritmo de Nagle em todas as interfaces de rede para enviar pacotes imediatamente, reduzindo o delay (MS)."@,
        NetworkTweak::InterruptModeration.spec_name() == "Interrupt Moderation (Placa de Rede)"@,
        NetworkTweak::InterruptModeration.spec_description() == "Desabilita a Moderação de Interrupção. Reduz CPU overhead mas aumenta imediatamente a resposta da rede."@,
        NetworkTweak::TcpCongestionControl.spec_name() == "TCP BBR Congestion Control"@,
        NetworkTweak::TcpCongestionControl.spec_description() == "Altera o controle de congestionamento para BBR, que otimiza banda e minimiza latência em redes variadas."@,
        NetworkTweak::NetdevMaxBacklog.spec_name() == "Netdev Max Backlog"@,
        NetworkTweak::NetdevMaxBacklog.spec_description() == "Aumenta a fila de recepção do kernel para lidar melhor com picos de pacotes sem descartá-los (jitter)."@,
        NetworkTweak::TcpLowLatency.spec_name() == "TCP Low Latency"@,
        NetworkTweak::TcpLowLatency.spec_description() == "Instrui a pilha TCP a priorizar baixa latência sobre throughput bruto (desativa processamento em batch)."@,
        NetworkTweak::InterruptCoalescing.spec_name() == "Interrupt Coalescing (ethtool)"@,
        NetworkTweak::InterruptCoalescing.spec_description() == "Desativa o rx-usecs usando ethtool na interface principal. Processa pacotes IMEDIATAMENTE."@,
        NetworkTweak::DelayedAck.spec_name() == "Desabilitar TCP Delayed ACK"@,
        NetworkTweak::DelayedAck.spec_description() == "Otimiza o tráfego interativo (jogos) respondendo imediatamente aos pacotes TCP recebidos, reduzindo a latência artificial."@,
        NetworkTweak::TcpWindowSize.spec_name() == "TCP Send/Recv Space (Window Size)"@,
        NetworkTweak::TcpWindowSize.spec_description() == "Aumenta o tamanho da janela do TCP. (Nota: O macOS moderno faz auto-tuning bem, o ganho de jitter aqui é marginal/análise)."@,
{
}

/// No two tweaks of the library share a name or a description, and no
/// tweak's description is its name.
pub proof fn lemma_network_tweak_texts_distinct(a: NetworkTweak, b: NetworkTweak)
    ensures
        a.spec_name() != a.spec_description(),
        a != b ==> a.spec_name() != b.spec_name(),
        a != b ==> a.spec_description() != b.spec_description(),
{
    reveal_strlit("Desabilitar Network Throttling");
    reveal_strlit("Desabilitar Nagle's Algorithm (TcpAckFrequency & TCPNoDelay)");
    reveal_strlit("Interrupt Moderation (Placa de Rede)");
    reveal_strlit("TCP BBR Congestion Control");
    reveal_strlit("Netdev Max Backlog");
    reveal_strlit("TCP Low Latency");
    reveal_strlit("Interrupt Coalescing (ethtool)");
    reveal_strlit("Desabilitar TCP Delayed ACK");
    reveal_strlit("TCP Send/Recv Space (Window Size)");
    reveal_strlit("Desativa o limite de taxa de pacotes multimidia do Windows, o que pode reduzir a latência em jogos.");
    reveal_strlit("Desabilita o algoritmo de Nagle em todas as interfaces de rede para enviar pacotes imediatamente, reduzindo o delay (MS).");
    reveal_strlit("Desabilita a Moderação de Interrupção. Reduz CPU overhead mas aumenta imediatamente a resposta da rede.");
    reveal_strlit("Altera o controle de congestionamento para BBR, que otimiza banda e minimiza latência em redes variadas.");
    reveal_strlit("Aumenta a fila de recepção do kernel para lidar melhor com picos de pacotes sem descartá-los (jitter).");
    reveal_strlit("Instrui a pilha TCP a priorizar baixa latência sobre throughput bruto (desativa processamento em batch).");
    reveal_strlit("Desativa o rx-usecs usando ethtool na interface principal. Processa pacotes IMEDIATAMENTE.");
    reveal_strlit("Otimiza o tráfego interativo (jogos) respondendo imediatamente aos pacotes TCP recebidos, reduzindo a latência artificial.");
    reveal_strlit("Aumenta o tamanho da janela do TCP. (Nota: O macOS moderno faz auto-tuning bem, o ganho de jitter aqui é marginal/análise).");
    if a.spec_name() == a.spec_description() {
        assert(a.spec_name().len() == a.spec_description().len());
    }
    if a != b && a.spec_name() == b.spec_name() {
        assert(a.spec_name().len() == b.spec_name().len());
        assert(a.spec_name()[0] == b.spec_name()[0]);
    }
    if a != b && a.spec_description() == b.spec_description() {
        assert(a.spec_description().len() == b.spec_description().len());
        assert(a.spec_description()[0] == b.spec_description()[0]);
    }
}

} // verus!
