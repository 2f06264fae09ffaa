//! The Windows tweaks: registry values under `HKEY_LOCAL_MACHINE` and the
//! network adapter's interrupt moderation through PowerShell.

use vstd::prelude::*;

use crate::text::{
    chars_of, colon_pair_spec, decimal, decimal_string, is_digit, join_with,
    lemma_colon_pair_roundtrip, lemma_decimal, lemma_parse_decimal, lemma_split_join,
    lemma_split_two, parse_u32, parse_u32_spec, split, split_ranges, string_of_range, Separator,
};
use crate::tweaks::{OsPlatform, Tweak};

verus! {

/// Turns off the multimedia network throttling of Windows.
pub struct NetworkThrottlingTweak;

impl Tweak for NetworkThrottlingTweak {
    open spec fn spec_id(&self) -> Seq<char> {
        "win_network_throttling"@
    }

    open spec fn spec_name(&self) -> Seq<char> {
        "Desabilitar Network Throttling"@
    }

    open spec fn spec_description(&self) -> Seq<char> {
        "Desativa o limite de taxa de pacotes multimidia do Windows, o que pode reduzir a latência em jogos."@
    }

    open spec fn spec_supported_os(&self) -> Seq<OsPlatform> {
        seq![OsPlatform::Windows]
    }

    open spec fn spec_requires_reboot(&self) -> bool {
        false
    }

    fn id(&self) -> (r: &'static str) {
        "win_network_throttling"
    }

    fn name(&self) -> (r: &'static str) {
        "Desabilitar Network Throttling"
    }

    fn description(&self) -> (r: &'static str) {
        "Desativa o limite de taxa de pacotes multimidia do Windows, o que pode reduzir a latência em jogos."
    }

    fn supported_os(&self) -> (r: Vec<OsPlatform>) {
        let mut v = Vec::new();
        v.push(OsPlatform::Windows);
        v
    }

    fn requires_reboot(&self) -> (r: bool) {
        false
    }
}

/// The decimal form of a registry value, as it is recorded.
pub open spec fn dword_text(v: u32) -> Seq<char> {
    decimal(v as nat)
}

impl NetworkThrottlingTweak {
    /// The registry key, under `HKEY_LOCAL_MACHINE`, of the setting.
    pub fn registry_key(&self) -> (r: &'static str)
        ensures
            r@ == "SOFTWARE\\Microsoft\\Windows NT\\CurrentVersion\\Multimedia\\SystemProfile"@,
    {
        "SOFTWARE\\Microsoft\\Windows NT\\CurrentVersion\\Multimedia\\SystemProfile"
    }

    /// The registry value of the setting.
    pub fn value_name(&self) -> (r: &'static str)
        ensures
            r@ == "NetworkThrottlingIndex"@,
    {
        "NetworkThrottlingIndex"
    }

    /// The current value, from the registry value when it could be read:
    /// its decimal form.
    pub fn read_value(&self, index: Option<u32>) -> (r: Option<String>)
        ensures
            match index {
                Some(v) => r matches Some(s) && s@ == dword_text(v),
                None => r is None,
            },
    {
        match index {
            Some(v) => Some(decimal_string(v as u64)),
            None => None,
        }
    }

    /// The registry value that applies the tweak: `0xFFFFFFFF` turns the
    /// throttling off.
    pub fn apply_value(&self) -> (r: u32)
        ensures
            r == 0xFFFF_FFFFu32,
    {
        0xFFFF_FFFFu32
    }

    /// The registry value that puts back `original_value`; none, and
    /// nothing is written, when it is not a `u32` in decimal.
    pub fn revert_value(&self, original_value: &str) -> (r: Option<u32>)
        ensures
            r == parse_u32_spec(original_value@),
    {
        parse_u32(original_value)
    }
}

/// Reverting the throttling with the value that was read writes back the
/// registry value that was read.
pub proof fn lemma_throttling_roundtrip(v: u32)
    ensures
        parse_u32_spec(dword_text(v)) == Some(v),
{
    lemma_parse_decimal(v);
}

/// Turns off Nagle's algorithm on every interface that has an address.
pub struct NagleAlgorithmTweak;

impl Tweak for NagleAlgorithmTweak {
    open spec fn spec_id(&self) -> Seq<char> {
        "win_nagle_algorithm"@
    }

    open spec fn spec_name(&self) -> Seq<char> {
        "Desabilitar Nagle's Algorithm (TcpAckFrequency & TCPNoDelay)"@
    }

    open spec fn spec_description(&self) -> Seq<char> {
        "Desabilita o algoritmo de Nagle em todas as interfaces de rede para enviar pacotes imediatamente, reduzindo o delay (MS)."@
    }

    open spec fn spec_supported_os(&self) -> Seq<OsPlatform> {
        seq![OsPlatform::Windows]
    }

    open spec fn spec_requires_reboot(&self) -> bool {
        true
    }

    fn id(&self) -> (r: &'static str) {
        "win_nagle_algorithm"
    }

    fn name(&self) -> (r: &'static str) {
        "Desabilitar Nagle's Algorithm (TcpAckFrequency & TCPNoDelay)"
    }

    fn description(&self) -> (r: &'static str) {
        "Desabilita o algoritmo de Nagle em todas as interfaces de rede para enviar pacotes imediatamente, reduzindo o delay (MS)."
    }

    fn supported_os(&self) -> (r: Vec<OsPlatform>) {
        let mut v = Vec::new();
        v.push(OsPlatform::Windows);
        v
    }

    fn requires_reboot(&self) -> (r: bool) {
        true
    }
}

/// A registry value that could be read, or `0`.
pub open spec fn or_zero_dword(v: Option<u32>) -> u32 {
    match v {
        Some(x) => x,
        None => 0,
    }
}

/// The two Nagle values of one network interface, each absent when the
/// interface does not hold it.
pub struct InterfaceValues {
    pub interface: String,
    pub ack_frequency: Option<u32>,
    pub no_delay: Option<u32>,
}

/// What an interface's Nagle values hold: its name, then the two values.
pub struct InterfaceValuesView {
    pub interface: Seq<char>,
    pub ack_frequency: Option<u32>,
    pub no_delay: Option<u32>,
}

impl View for InterfaceValues {
    type V = InterfaceValuesView;

    open spec fn view(&self) -> InterfaceValuesView {
        InterfaceValuesView {
            interface: self.interface@,
            ack_frequency: self.ack_frequency,
            no_delay: self.no_delay,
        }
    }
}

/// A value as recorded: its decimal form, or nothing when it is absent.
pub open spec fn field_text(v: Option<u32>) -> Seq<char> {
    match v {
        Some(x) => dword_text(x),
        None => Seq::empty(),
    }
}

/// One interface as recorded: `name=ack:nodelay`.
pub open spec fn entry_text(e: InterfaceValuesView) -> Seq<char> {
    e.interface + seq!['='] + field_text(e.ack_frequency) + seq![':'] + field_text(e.no_delay)
}

/// The value recorded for Nagle's algorithm: the interfaces, separated by
/// `;`.
pub open spec fn nagle_text(interfaces: Seq<InterfaceValuesView>) -> Seq<char> {
    join_with(interfaces.map_values(|e: InterfaceValuesView| entry_text(e)), ';')
}

/// A recorded value read back: absent when empty, else the number, `0`
/// where it is not one.
pub open spec fn field_spec(f: Seq<char>) -> Option<u32> {
    if f.len() == 0 {
        None
    } else {
        Some(or_zero_dword(parse_u32_spec(f)))
    }
}

/// One recorded interface read back; none when it is not `name=a:b`.
pub open spec fn entry_spec(e: Seq<char>) -> Option<InterfaceValuesView> {
    let parts = split(e, Separator::Char('='));
    if parts.len() == 2 {
        match colon_pair_spec(parts[1]) {
            Some((a, b)) => Some(
                InterfaceValuesView {
                    interface: parts[0],
                    ack_frequency: field_spec(a),
                    no_delay: field_spec(b),
                },
            ),
            None => None,
        }
    } else {
        None
    }
}

/// The recorded interfaces among `pieces`, in order, skipping the pieces
/// that are not `name=a:b`.
pub open spec fn entries_spec(pieces: Seq<Seq<char>>) -> Seq<InterfaceValuesView>
    decreases pieces.len(),
{
    if pieces.len() == 0 {
        Seq::empty()
    } else {
        let r = entries_spec(pieces.drop_last());
        match entry_spec(pieces.last()) {
            Some(e) => r.push(e),
            None => r,
        }
    }
}

/// The interfaces and values that a recorded Nagle value puts back.
pub open spec fn nagle_restore_spec(original: Seq<char>) -> Seq<InterfaceValuesView> {
    entries_spec(split(original, Separator::Char(';')))
}

fn field_string(v: Option<u32>) -> (r: String)
    ensures
        r@ == field_text(v),
{
    match v {
        Some(x) => decimal_string(x as u64),
        None => String::new(),
    }
}

fn entry_string(e: &InterfaceValues) -> (r: String)
    ensures
        r@ == entry_text(e@),
{
    let mut t = e.interface.clone();
    t.append("=");
    let a = field_string(e.ack_frequency);
    t.append(a.as_str());
    t.append(":");
    let n = field_string(e.no_delay);
    t.append(n.as_str());
    proof {
        reveal_strlit("=");
        reveal_strlit(":");
        assert(t@ =~= entry_text(e@));
    }
    t
}

fn field_of_range(s: &str, a: usize, b: usize) -> (r: Option<u32>)
    requires
        a <= b <= s@.len(),
    ensures
        r == field_spec(s@.subrange(a as int, b as int)),
{
    if a == b {
        None
    } else {
        let t = string_of_range(s, a, b);
        match parse_u32(t.as_str()) {
            Some(x) => Some(x),
            None => Some(0),
        }
    }
}

impl NagleAlgorithmTweak {
    /// The registry key, under `HKEY_LOCAL_MACHINE`, that holds one subkey
    /// per network interface.
    pub fn interfaces_key(&self) -> (r: &'static str)
        ensures
            r@ == "SYSTEM\\CurrentControlSet\\Services\\Tcpip\\Parameters\\Interfaces"@,
    {
        "SYSTEM\\CurrentControlSet\\Services\\Tcpip\\Parameters\\Interfaces"
    }

    /// The registry value of the acknowledgement frequency.
    pub fn ack_frequency_name(&self) -> (r: &'static str)
        ensures
            r@ == "TcpAckFrequency"@,
    {
        "TcpAckFrequency"
    }

    /// The registry value of the no-delay flag.
    pub fn no_delay_name(&self) -> (r: &'static str)
        ensures
            r@ == "TCPNoDelay"@,
    {
        "TCPNoDelay"
    }

    /// The registry value that holds an address given by DHCP.
    pub fn dhcp_address_name(&self) -> (r: &'static str)
        ensures
            r@ == "DhcpIPAddress"@,
    {
        "DhcpIPAddress"
    }

    /// The registry value that holds static addresses.
    pub fn static_address_name(&self) -> (r: &'static str)
        ensures
            r@ == "IPAddress"@,
    {
        "IPAddress"
    }

    /// Whether an interface takes part: it has a DHCP address or a static
    /// address.
    pub fn has_address(&self, dhcp_address: bool, static_address: bool) -> (r: bool)
        ensures
            r == (dhcp_address || static_address),
    {
        dhcp_address || static_address
    }

    /// The current value, from the two registry values of each interface
    /// that has an address: none when there is no such interface, else the
    /// interfaces, each as `name=ack:nodelay` with an empty field for a value
    /// the interface does not hold, separated by `;`.
    pub fn read_value(&self, interfaces: &Vec<InterfaceValues>) -> (r: Option<String>)
        ensures
            interfaces@.len() == 0 ==> r is None,
            interfaces@.len() > 0 ==> (r matches Some(v) && v@ == nagle_text(
                interfaces@.map_values(|e: InterfaceValues| e@),
            )),
    {
        if interfaces.len() == 0 {
            return None;
        }
        let ghost vs = interfaces@.map_values(|e: InterfaceValues| e@);
        let ghost texts = vs.map_values(|e: InterfaceValuesView| entry_text(e));
        let mut out = entry_string(&interfaces[0]);
        assert(texts.take(1) =~= seq![texts[0]]);
        let mut i: usize = 1;
        while i < interfaces.len()
            invariant
                1 <= i <= interfaces@.len(),
                vs == interfaces@.map_values(|e: InterfaceValues| e@),
                texts == vs.map_values(|e: InterfaceValuesView| entry_text(e)),
                out@ == join_with(texts.take(i as int), ';'),
            decreases interfaces@.len() - i,
        {
            out.append(";");
            let t = entry_string(&interfaces[i]);
            out.append(t.as_str());
            proof {
                reveal_strlit(";");
                assert(texts.take(i + 1).drop_last() =~= texts.take(i as int));
                assert(texts[i as int] == entry_text(interfaces@[i as int]@));
            }
            i = i + 1;
        }
        assert(texts.take(i as int) =~= texts);
        Some(out)
    }

    /// The registry values that apply the tweak: `TcpAckFrequency` 1 and
    /// `TCPNoDelay` 1.
    pub fn apply_values(&self) -> (r: (u32, u32))
        ensures
            r == (1u32, 1u32),
    {
        (1, 1)
    }

    /// The values that put back `original_value`, per recorded interface:
    /// a value to write, or none when the interface did not hold it and it is
    /// to be deleted. Pieces that are not `name=a:b` are skipped; a field
    /// that is not a number gives `0`.
    pub fn revert_values(&self, original_value: &str) -> (r: Vec<InterfaceValues>)
        ensures
            r@.map_values(|e: InterfaceValues| e@) == nagle_restore_spec(original_value@),
    {
        let cs = chars_of(original_value);
        let pieces = split_ranges(&cs, 0, cs.len(), Separator::Char(';'));
        let ghost ps = split(cs@, Separator::Char(';'));
        assert(cs@.subrange(0, cs@.len() as int) =~= cs@);
        let mut out: Vec<InterfaceValues> = Vec::new();
        let mut k: usize = 0;
        assert(ps.take(0) =~= Seq::<Seq<char>>::empty());
        assert(out@.map_values(|e: InterfaceValues| e@) =~= Seq::<InterfaceValuesView>::empty());
        while k < pieces.len()
            invariant
                k <= pieces@.len() == ps.len(),
                cs@ == original_value@,
                ps == split(cs@, Separator::Char(';')),
                pieces@.len() == ps.len(),
                forall|j: int|
                    0 <= j < pieces@.len() ==> (#[trigger] pieces@[j]).0 <= pieces@[j].1
                        <= cs@.len() && cs@.subrange(pieces@[j].0 as int, pieces@[j].1 as int)
                        == ps[j],
                out@.map_values(|e: InterfaceValues| e@) == entries_spec(ps.take(k as int)),
            decreases pieces@.len() - k,
        {
            let (a, b) = pieces[k];
            let ghost e = ps[k as int];
            assert(cs@.subrange(a as int, b as int) == e);
            assert(ps.take(k + 1).drop_last() =~= ps.take(k as int));
            assert(ps.take(k + 1).last() == e);
            let parts = split_ranges(&cs, a, b, Separator::Char('='));
            if parts.len() == 2 {
                let (na, nb) = parts[0];
                let (fa, fb) = parts[1];
                let ghost p1 = split(e, Separator::Char('='))[1];
                assert(cs@.subrange(fa as int, fb as int) == p1);
                let fields = split_ranges(&cs, fa, fb, Separator::Char(':'));
                if fields.len() == 2 {
                    let (aa, ab) = fields[0];
                    let (ba, bb) = fields[1];
                    let name = string_of_range(original_value, na, nb);
                    let ack = field_of_range(original_value, aa, ab);
                    let nd = field_of_range(original_value, ba, bb);
                    let ghost before = out@;
                    out.push(InterfaceValues { interface: name, ack_frequency: ack, no_delay: nd });
                    proof {
                        assert(out@.drop_last() =~= before);
                        assert(out@.map_values(|x: InterfaceValues| x@) =~= before.map_values(
                            |x: InterfaceValues| x@,
                        ).push(out@[out@.len() - 1]@));
                    }
                }
            }
            k = k + 1;
        }
        assert(ps.take(k as int) =~= ps);
        out
    }
}

/// A recorded interface's text holds none of the separators `;`, `=` and
/// `:` outside its name, which holds none of `;` and `=`.
proof fn lemma_field_text(v: Option<u32>)
    ensures
        forall|i: int|
            0 <= i < field_text(v).len() ==> {
                let c = #[trigger] field_text(v)[i];
                c != ';' && c != '=' && c != ':'
            },
        field_spec(field_text(v)) == v,
{
    match v {
        Some(x) => {
            lemma_decimal(x as nat);
            lemma_parse_decimal(x);
            assert forall|i: int| 0 <= i < field_text(v).len() implies {
                let c = #[trigger] field_text(v)[i];
                c != ';' && c != '=' && c != ':'
            } by {
                assert(is_digit(decimal(x as nat)[i]));
            }
        },
        None => {},
    }
}

proof fn lemma_entry_roundtrip(e: InterfaceValuesView)
    requires
        forall|i: int|
            0 <= i < e.interface.len() ==> #[trigger] e.interface[i] != ';' && e.interface[i]
                != '=',
    ensures
        entry_spec(entry_text(e)) == Some(e),
        forall|i: int| 0 <= i < entry_text(e).len() ==> #[trigger] entry_text(e)[i] != ';',
{
    lemma_field_text(e.ack_frequency);
    lemma_field_text(e.no_delay);
    let fa = field_text(e.ack_frequency);
    let fb = field_text(e.no_delay);
    let rest = fa + seq![':'] + fb;
    assert forall|i: int| 0 <= i < rest.len() implies #[trigger] rest[i] != '=' by {
        if i < fa.len() {
            assert(rest[i] == fa[i]);
        } else if i > fa.len() {
            assert(rest[i] == fb[i - fa.len() - 1]);
        }
    }
    lemma_split_two(e.interface, rest, '=');
    assert(entry_text(e) =~= e.interface + seq!['='] + rest);
    lemma_colon_pair_roundtrip(fa, fb);
    let t = entry_text(e);
    assert forall|i: int| 0 <= i < t.len() implies #[trigger] t[i] != ';' by {
        let n = e.interface.len();
        if i < n {
            assert(t[i] == e.interface[i]);
        } else if i > n {
            assert(t[i] == rest[i - n - 1]);
            if i - n - 1 < fa.len() {
                assert(rest[i - n - 1] == fa[i - n - 1]);
            } else if i - n - 1 > fa.len() {
                assert(rest[i - n - 1] == fb[i - n - 1 - fa.len() - 1]);
            }
        }
    }
}

proof fn lemma_entries_roundtrip(vs: Seq<InterfaceValuesView>)
    requires
        forall|k: int, i: int|
            0 <= k < vs.len() && 0 <= i < vs[k].interface.len() ==> #[trigger] vs[k].interface[i]
                != ';' && vs[k].interface[i] != '=',
    ensures
        entries_spec(vs.map_values(|e: InterfaceValuesView| entry_text(e))) == vs,
    decreases vs.len(),
{
    let texts = vs.map_values(|e: InterfaceValuesView| entry_text(e));
    if vs.len() > 0 {
        let d = vs.drop_last();
        assert forall|k: int, i: int|
            0 <= k < d.len() && 0 <= i < d[k].interface.len() implies #[trigger] d[k].interface[i]
                != ';' && d[k].interface[i] != '=' by {
            assert(d[k] == vs[k]);
        }
        lemma_entries_roundtrip(d);
        assert(texts.drop_last() =~= d.map_values(|e: InterfaceValuesView| entry_text(e)));
        let last = vs[vs.len() - 1];
        assert forall|i: int| 0 <= i < last.interface.len() implies #[trigger] last.interface[i]
            != ';' && last.interface[i] != '=' by {
            assert(vs[vs.len() - 1].interface[i] != ';');
        }
        lemma_entry_roundtrip(last);
        assert(texts.last() == entry_text(last));
        assert(d.push(last) =~= vs);
    } else {
        assert(texts.len() == 0);
    }
}

/// Reverting Nagle's algorithm with the value that was read puts back, on
/// each interface that was read, the values it held and deletes the ones it
/// did not hold, when the interface names hold neither `;` nor `=`.
pub proof fn lemma_nagle_roundtrip(vs: Seq<InterfaceValuesView>)
    requires
        vs.len() >= 1,
        forall|k: int, i: int|
            0 <= k < vs.len() && 0 <= i < vs[k].interface.len() ==> #[trigger] vs[k].interface[i]
                != ';' && vs[k].interface[i] != '=',
    ensures
        nagle_restore_spec(nagle_text(vs)) == vs,
{
    let texts = vs.map_values(|e: InterfaceValuesView| entry_text(e));
    assert forall|k: int, i: int| 0 <= k < texts.len() && 0 <= i < texts[k].len() implies #[trigger] texts[k][i]
        != ';' by {
        assert forall|j: int| 0 <= j < vs[k].interface.len() implies #[trigger] vs[k].interface[j]
            != ';' && vs[k].interface[j] != '=' by {}
        lemma_entry_roundtrip(vs[k]);
        assert(texts[k] == entry_text(vs[k]));
    }
    lemma_split_join(texts, ';');
    lemma_entries_roundtrip(vs);
}

/// Turns off the network adapter's interrupt moderation.
pub struct InterruptModerationTweak;

impl Tweak for InterruptModerationTweak {
    open spec fn spec_id(&self) -> Seq<char> {
        "win_interrupt_moderation"@
    }

    open spec fn spec_name(&self) -> Seq<char> {
        "Interrupt Moderation (Placa de Rede)"@
    }

    open spec fn spec_description(&self) -> Seq<char> {
        "Desabilita a Moderação de Interrupção. Reduz CPU overhead mas aumenta imediatamente a resposta da rede."@
    }

    open spec fn spec_supported_os(&self) -> Seq<OsPlatform> {
        seq![OsPlatform::Windows]
    }

    open spec fn spec_requires_reboot(&self) -> bool {
        false
    }

    fn id(&self) -> (r: &'static str) {
        "win_interrupt_moderation"
    }

    fn name(&self) -> (r: &'static str) {
        "Interrupt Moderation (Placa de Rede)"
    }

    fn description(&self) -> (r: &'static str) {
        "Desabilita a Moderação de Interrupção. Reduz CPU overhead mas aumenta imediatamente a resposta da rede."
    }

    fn supported_os(&self) -> (r: Vec<OsPlatform>) {
        let mut v = Vec::new();
        v.push(OsPlatform::Windows);
        v
    }

    fn requires_reboot(&self) -> (r: bool) {
        false
    }
}

/// The PowerShell command that sets interrupt moderation to `value`.
pub open spec fn moderation_command(value: Seq<char>) -> Seq<char> {
    "Set-NetAdapterAdvancedProperty -DisplayName 'Interrupt Moderation' -DisplayValue '"@ + value
        + "' -NoRestart"@
}

fn powershell_args(command: &str) -> (r: Vec<String>)
    ensures
        r@.len() == 3,
        r@[0]@ == "-NoProfile"@,
        r@[1]@ == "-Command"@,
        r@[2]@ == command@,
{
    let mut v = Vec::new();
    v.push("-NoProfile".to_owned());
    v.push("-Command".to_owned());
    v.push(command.to_owned());
    v
}

impl InterruptModerationTweak {
    /// The program that runs the adapter commands.
    pub fn program(&self) -> (r: &'static str)
        ensures
            r@ == "powershell"@,
    {
        "powershell"
    }

    /// The arguments that print the current interrupt moderation.
    pub fn query_args(&self) -> (r: Vec<String>)
        ensures
            r@.len() == 3,
            r@[0]@ == "-NoProfile"@,
            r@[1]@ == "-Command"@,
            r@[2]@ == "Get-NetAdapterAdvancedProperty -DisplayName 'Interrupt Moderation' | Select-Object -ExpandProperty DisplayValue"@,
    {
        powershell_args(
            "Get-NetAdapterAdvancedProperty -DisplayName 'Interrupt Moderation' | Select-Object -ExpandProperty DisplayValue",
        )
    }

    /// The arguments that turn interrupt moderation off.
    pub fn apply_args(&self) -> (r: Vec<String>)
        ensures
            r@.len() == 3,
            r@[0]@ == "-NoProfile"@,
            r@[1]@ == "-Command"@,
            r@[2]@ == moderation_command("Disabled"@),
    {
        self.revert_args("Disabled")
    }

    /// The arguments that put back `original_value`.
    pub fn revert_args(&self, original_value: &str) -> (r: Vec<String>)
        ensures
            r@.len() == 3,
            r@[0]@ == "-NoProfile"@,
            r@[1]@ == "-Command"@,
            r@[2]@ == moderation_command(original_value@),
    {
        let mut c = "Set-NetAdapterAdvancedProperty -DisplayName 'Interrupt Moderation' -DisplayValue '".to_owned();
        c.append(original_value);
        c.append("' -NoRestart");
        powershell_args(c.as_str())
    }
}

} // verus!
