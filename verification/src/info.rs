//! What the graphical front end shows of each tweak, and its messages.

use vstd::prelude::*;

use crate::backup::{BackupRecordView, BackupState};
use crate::text::{decimal, decimal_string};
use crate::tweaks::{lemma_network_tweak_texts_distinct, NetworkTweak, Tweak};

verus! {

/// A tweak as the front end lists it: whether it is active, that is,
/// whether it has a backup.
pub struct TweakInfo {
    pub id: String,
    pub name: String,
    pub description: String,
    pub active: bool,
}

/// Whether `info` shows `tweak` given the backups `m`.
pub open spec fn describes<T: Tweak>(info: TweakInfo, tweak: T, m: Map<Seq<char>, BackupRecordView>) -> bool {
    &&& info.id@ == tweak.spec_id()
    &&& info.name@ == tweak.spec_name()
    &&& info.description@ == tweak.spec_description()
    &&& info.active == m.contains_key(tweak.spec_id())
}

/// How `tweak` is shown, given the backups in `state`.
pub fn tweak_info<T: Tweak>(tweak: &T, state: &BackupState) -> (r: TweakInfo)
    ensures
        describes(r, *tweak, state@),
        r.id@ == tweak.spec_id(),
        r.name@ == tweak.spec_name(),
        r.description@ == tweak.spec_description(),
        r.active == state@.contains_key(tweak.spec_id()),
{
    TweakInfo {
        id: tweak.id().to_owned(),
        name: tweak.name().to_owned(),
        description: tweak.description().to_owned(),
        active: state.contains_key(tweak.id()),
    }
}

/// What an info that shows a tweak holds: the tweak's identifier, name and
/// description, and whether the tweak has a backup.
pub proof fn lemma_describes_shows_tweak<T: Tweak>(
    info: TweakInfo,
    tweak: T,
    m: Map<Seq<char>, BackupRecordView>,
)
    requires
        describes(info, tweak, m),
    ensures
        info.id@ == tweak.spec_id(),
        info.name@ == tweak.spec_name(),
        info.description@ == tweak.spec_description(),
        info.active == m.contains_key(tweak.spec_id()),
{
}

/// An info that shows one of the library's tweaks shows a description
/// that differs from the name it shows, and a name and a description that
/// no other tweak of the library has.
pub proof fn lemma_describes_network_tweak(
    info: TweakInfo,
    tweak: NetworkTweak,
    other: NetworkTweak,
    m: Map<Seq<char>, BackupRecordView>,
)
    requires
        describes(info, tweak, m),
    ensures
        info.description@ == tweak.spec_description(),
        info.description@ != info.name@,
        other != tweak ==> info.name@ != other.spec_name(),
        other != tweak ==> info.description@ != other.spec_description(),
{
    lemma_network_tweak_texts_distinct(tweak, other);
}

/// How each of `tweaks` is shown, in order, given the backups in `state`.
pub fn tweak_infos<T: Tweak>(tweaks: &Vec<T>, state: &BackupState) -> (r: Vec<TweakInfo>)
    ensures
        r@.len() == tweaks@.len(),
        forall|i: int| 0 <= i < r@.len() ==> describes(#[trigger] r@[i], tweaks@[i], state@),
{
    let mut infos: Vec<TweakInfo> = Vec::new();
    let mut i: usize = 0;
    while i < tweaks.len()
        invariant
            i <= tweaks@.len(),
            infos@.len() == i,
            forall|j: int| 0 <= j < i ==> describes(#[trigger] infos@[j], tweaks@[j], state@),
        decreases tweaks@.len() - i,
    {
        infos.push(tweak_info(&tweaks[i], state));
        i = i + 1;
    }
    infos
}

/// The message after a tweak was applied: a restart is mentioned when the
/// tweak needs one and was really applied.
pub fn apply_message(requires_reboot: bool, dry_run: bool) -> (r: String)
    ensures
        r@ == "Aplicado com sucesso."@ + if requires_reboot && !dry_run {
            " (Requer reinicialização)"@
        } else {
            Seq::<char>::empty()
        },
{
    let mut m = "Aplicado com sucesso.".to_owned();
    if requires_reboot && !dry_run {
        m.append(" (Requer reinicialização)");
    } else {
        assert(m@ + Seq::<char>::empty() =~= m@);
    }
    m
}

/// The message after reverting all tweaks: how many were reverted.
pub fn revert_all_message(count: u64) -> (r: String)
    ensures
        r@ == decimal(count as nat) + " ajustes revertidos."@,
{
    let mut m = decimal_string(count);
    m.append(" ajustes revertidos.");
    m
}

} // verus!
