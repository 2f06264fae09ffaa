//! Local network tuning: the tweaks of each operating system, what they
//! read and write, and the backups that let every change be put back.

pub mod backup;
pub mod info;
pub mod session;
pub mod text;
pub mod tweaks;

use vstd::prelude::*;

use crate::tweaks::{NetworkTweak, OsPlatform, Tweak};

verus! {

/// The tweaks offered on `platform`, in order; none on another system.
pub open spec fn platform_tweaks(platform: Option<OsPlatform>) -> Seq<NetworkTweak> {
    match platform {
        Some(OsPlatform::Windows) => seq![
            NetworkTweak::NetworkThrottling,
            NetworkTweak::NagleAlgorithm,
            NetworkTweak::InterruptModeration,
        ],
        Some(OsPlatform::Linux) => seq![
            NetworkTweak::TcpCongestionControl,
            NetworkTweak::NetdevMaxBacklog,
            NetworkTweak::TcpLowLatency,
            NetworkTweak::InterruptCoalescing,
        ],
        Some(OsPlatform::MacOS) => seq![NetworkTweak::DelayedAck, NetworkTweak::TcpWindowSize],
        None => seq![],
    }
}

/// All the tweaks available on `platform`, the system the program runs on
/// (none for a system that has no tweaks).
pub fn get_all_tweaks(platform: Option<OsPlatform>) -> (r: Vec<NetworkTweak>)
    ensures
        r@ == platform_tweaks(platform),
{
    let mut list: Vec<NetworkTweak> = Vec::new();
    match platform {
        Some(OsPlatform::Windows) => {
            list.push(NetworkTweak::NetworkThrottling);
            list.push(NetworkTweak::NagleAlgorithm);
            list.push(NetworkTweak::InterruptModeration);
        },
        Some(OsPlatform::Linux) => {
            list.push(NetworkTweak::TcpCongestionControl);
            list.push(NetworkTweak::NetdevMaxBacklog);
            list.push(NetworkTweak::TcpLowLatency);
            list.push(NetworkTweak::InterruptCoalescing);
        },
        Some(OsPlatform::MacOS) => {
            list.push(NetworkTweak::DelayedAck);
            list.push(NetworkTweak::TcpWindowSize);
        },
        None => {},
    }
    assert(list@ =~= platform_tweaks(platform));
    list
}

/// No two tweaks share an identifier.
pub proof fn lemma_tweak_ids_unique(a: NetworkTweak, b: NetworkTweak)
    requires
        a != b,
    ensures
        a.spec_id() != b.spec_id(),
{
    reveal_strlit("win_network_throttling");
    reveal_strlit("win_nagle_algorithm");
    reveal_strlit("win_interrupt_moderation");
    reveal_strlit("linux_tcp_bbr");
    reveal_strlit("linux_netdev_max_backlog");
    reveal_strlit("linux_tcp_low_latency");
    reveal_strlit("linux_interrupt_coalescing");
    reveal_strlit("macos_delayed_ack");
    reveal_strlit("macos_tcp_window_size");
    if a.spec_id() == b.spec_id() {
        assert(a.spec_id().len() == b.spec_id().len());
        assert(a.spec_id()[6] == b.spec_id()[6]);
        assert(a.spec_id()[10] == b.spec_id()[10]);
        assert(a.spec_id()[12] == b.spec_id()[12]);
    }
}

/// Every tweak offered on a system supports that system, and the tweaks
/// offered there are distinct.
pub proof fn lemma_platform_tweaks_supported(platform: OsPlatform)
    ensures
        forall|i: int|
            0 <= i < platform_tweaks(Some(platform)).len() ==> (
            #[trigger] platform_tweaks(Some(platform))[i]).spec_supported_os().contains(platform),
        forall|i: int, j: int|
            0 <= i < j < platform_tweaks(Some(platform)).len() ==> (
            #[trigger] platform_tweaks(Some(platform))[i]) != (
            #[trigger] platform_tweaks(Some(platform))[j]),
{
    let ts = platform_tweaks(Some(platform));
    assert forall|i: int| 0 <= i < ts.len() implies (#[trigger] ts[i]).spec_supported_os().contains(
        platform,
    ) by {
        assert(ts[i].spec_supported_os()[0] == platform);
    }
}

} // verus!
