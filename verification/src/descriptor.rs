//! The number that the crate prometheus gives the descriptor of a metric: a
//! hash of the metric's name, by which a registry tells metrics apart.

use vstd::prelude::*;

verus! {

/// The bit of weight `d`, a power of two, in the exclusive or of `a` and `b`.
pub open spec fn xor_bit(a: int, b: int, d: int) -> int {
    ((a / d) % 2 + (b / d) % 2) % 2 * d
}

/// The exclusive or of two bytes.
pub open spec fn xor_byte(a: int, b: int) -> int {
    xor_bit(a, b, 1) + xor_bit(a, b, 2) + xor_bit(a, b, 4) + xor_bit(a, b, 8) + xor_bit(a, b, 16)
        + xor_bit(a, b, 32) + xor_bit(a, b, 64) + xor_bit(a, b, 128)
}

/// One step of the hash FNV-1a on 64 bits: the lowest byte of `hash` is
/// combined with `byte` by exclusive or, and the result is multiplied by the
/// prime of the hash, keeping the lowest 64 bits.
pub open spec fn fnv_step(hash: int, byte: int) -> int {
    ((hash - hash % 256 + xor_byte(hash % 256, byte)) * 0x100000001b3) % 0x1_0000_0000_0000_0000
}

/// The hash FNV-1a of the first `n` characters of `text`, each taken as one
/// byte, which it is in a name of letters, digits, underscores and colons.
#[verifier::opaque]
pub open spec fn fnv_upto(text: Seq<char>, n: int) -> int
    decreases n,
{
    if n <= 0 {
        0xcbf29ce484222325
    } else {
        fnv_step(fnv_upto(text, n - 1), text[n - 1] as int)
    }
}

/// The number of the descriptor of a metric that has the name `name` and no
/// fixed labels: the hash of the name and of the byte 255 that ends it.
#[verifier::opaque]
pub open spec fn descriptor_id(name: Seq<char>) -> int {
    fnv_step(fnv_upto(name, name.len() as int), 255)
}

/// The number of the descriptor of the metric `horizon_sessions`.
pub proof fn lemma_id_of_horizon_sessions()
    ensures
        descriptor_id("horizon_sessions"@) == 16747988850053057737,
{
    reveal_strlit("horizon_sessions");
    reveal(fnv_upto);
    reveal(descriptor_id);
    let name = "horizon_sessions"@;
    assert(fnv_upto(name, 0) == 0xcbf29ce484222325);
    assert(fnv_upto(name, 1) == 12638197096160295895);
    assert(fnv_upto(name, 2) == 628912987614132648);
    assert(fnv_upto(name, 3) == 3701714910296001902);
    assert(fnv_upto(name, 4) == 4644328098419663589);
    assert(fnv_upto(name, 5) == 3490482655055090733);
    assert(fnv_upto(name, 6) == 9803897035225820198);
    assert(fnv_upto(name, 7) == 6085852346993770072);
    assert(fnv_upto(name, 8) == 10217417885850281445);
    assert(fnv_upto(name, 9) == 14198248017793637858);
    assert(fnv_upto(name, 10) == 5504061518120578149);
    assert(fnv_upto(name, 11) == 4939423165539592546);
    assert(fnv_upto(name, 12) == 14783075133286598627);
    assert(fnv_upto(name, 13) == 1174876213425508222);
    assert(fnv_upto(name, 14) == 18237479234036242915);
    assert(fnv_upto(name, 15) == 6615026569060313751);
    assert(fnv_upto(name, 16) == 11115553748645683564);
}

/// The number of the descriptor of the metric `horizon_agent_version_info`.
pub proof fn lemma_id_of_horizon_agent_version_info()
    ensures
        descriptor_id("horizon_agent_version_info"@) == 13081260579133580819,
{
    reveal_strlit("horizon_agent_version_info");
    reveal(fnv_upto);
    reveal(descriptor_id);
    let name = "horizon_agent_version_info"@;
    assert(fnv_upto(name, 0) == 0xcbf29ce484222325);
    assert(fnv_upto(name, 1) == 12638197096160295895);
    assert(fnv_upto(name, 2) == 628912987614132648);
    assert(fnv_upto(name, 3) == 3701714910296001902);
    assert(fnv_upto(name, 4) == 4644328098419663589);
    assert(fnv_upto(name, 5) == 3490482655055090733);
    assert(fnv_upto(name, 6) == 9803897035225820198);
    assert(fnv_upto(name, 7) == 6085852346993770072);
    assert(fnv_upto(name, 8) == 10217417885850281445);
    assert(fnv_upto(name, 9) == 14198228226584330060);
    assert(fnv_upto(name, 10) == 5486906937700636177);
    assert(fnv_upto(name, 11) == 12206869568226551580);
    assert(fnv_upto(name, 12) == 9676934797611550390);
    assert(fnv_upto(name, 13) == 8276619524318542758);
    assert(fnv_upto(name, 14) == 4492287402888554523);
    assert(fnv_upto(name, 15) == 1269499884943667511);
    assert(fnv_upto(name, 16) == 7436878262044036694);
    assert(fnv_upto(name, 17) == 6109206584678713132);
    assert(fnv_upto(name, 18) == 5823507314952767085);
    assert(fnv_upto(name, 19) == 17984997764447877324);
    assert(fnv_upto(name, 20) == 4088094734129839353);
    assert(fnv_upto(name, 21) == 6586141666766419093);
    assert(fnv_upto(name, 22) == 5939310802153894718);
    assert(fnv_upto(name, 23) == 1484810664648932565);
    assert(fnv_upto(name, 24) == 2309317681299845569);
    assert(fnv_upto(name, 25) == 15918962658852708037);
    assert(fnv_upto(name, 26) == 274802301464124126);
}

/// The number of the descriptor of the metric `horizon_session_protocols`.
pub proof fn lemma_id_of_horizon_session_protocols()
    ensures
        descriptor_id("horizon_session_protocols"@) == 6547618761868203158,
{
    reveal_strlit("horizon_session_protocols");
    reveal(fnv_upto);
    reveal(descriptor_id);
    let name = "horizon_session_protocols"@;
    assert(fnv_upto(name, 0) == 0xcbf29ce484222325);
    assert(fnv_upto(name, 1) == 12638197096160295895);
    assert(fnv_upto(name, 2) == 628912987614132648);
    assert(fnv_upto(name, 3) == 3701714910296001902);
    assert(fnv_upto(name, 4) == 4644328098419663589);
    assert(fnv_upto(name, 5) == 3490482655055090733);
    assert(fnv_upto(name, 6) == 9803897035225820198);
    assert(fnv_upto(name, 7) == 6085852346993770072);
    assert(fnv_upto(name, 8) == 10217417885850281445);
    assert(fnv_upto(name, 9) == 14198248017793637858);
    assert(fnv_upto(name, 10) == 5504061518120578149);
    assert(fnv_upto(name, 11) == 4939423165539592546);
    assert(fnv_upto(name, 12) == 14783075133286598627);
    assert(fnv_upto(name, 13) == 1174876213425508222);
    assert(fnv_upto(name, 14) == 18237479234036242915);
    assert(fnv_upto(name, 15) == 6615026569060313751);
    assert(fnv_upto(name, 16) == 11115522962320093656);
    assert(fnv_upto(name, 17) == 16721109089283481720);
    assert(fnv_upto(name, 18) == 11150684138004705534);
    assert(fnv_upto(name, 19) == 5570776736425920099);
    assert(fnv_upto(name, 20) == 803354921313114389);
    assert(fnv_upto(name, 21) == 6904759729731750478);
    assert(fnv_upto(name, 22) == 16732030593460406903);
    assert(fnv_upto(name, 23) == 13661575983466555080);
    assert(fnv_upto(name, 24) == 12744670231655983276);
    assert(fnv_upto(name, 25) == 16368987514043233005);
}

/// The number of the descriptor of the metric `horizon_session_types`.
pub proof fn lemma_id_of_horizon_session_types()
    ensures
        descriptor_id("horizon_session_types"@) == 16373632691288923634,
{
    reveal_strlit("horizon_session_types");
    reveal(fnv_upto);
    reveal(descriptor_id);
    let name = "horizon_session_types"@;
    assert(fnv_upto(name, 0) == 0xcbf29ce484222325);
    assert(fnv_upto(name, 1) == 12638197096160295895);
    assert(fnv_upto(name, 2) == 628912987614132648);
    assert(fnv_upto(name, 3) == 3701714910296001902);
    assert(fnv_upto(name, 4) == 4644328098419663589);
    assert(fnv_upto(name, 5) == 3490482655055090733);
    assert(fnv_upto(name, 6) == 9803897035225820198);
    assert(fnv_upto(name, 7) == 6085852346993770072);
    assert(fnv_upto(name, 8) == 10217417885850281445);
    assert(fnv_upto(name, 9) == 14198248017793637858);
    assert(fnv_upto(name, 10) == 5504061518120578149);
    assert(fnv_upto(name, 11) == 4939423165539592546);
    assert(fnv_upto(name, 12) == 14783075133286598627);
    assert(fnv_upto(name, 13) == 1174876213425508222);
    assert(fnv_upto(name, 14) == 18237479234036242915);
    assert(fnv_upto(name, 15) == 6615026569060313751);
    assert(fnv_upto(name, 16) == 11115522962320093656);
    assert(fnv_upto(name, 17) == 16721113487329994564);
    assert(fnv_upto(name, 18) == 11154623688167828647);
    assert(fnv_upto(name, 19) == 8166137650256261461);
    assert(fnv_upto(name, 20) == 672999173479601296);
    assert(fnv_upto(name, 21) == 4674258588664430009);
}

/// The number of the descriptor of the metric `horizon_machine_states`.
pub proof fn lemma_id_of_horizon_machine_states()
    ensures
        descriptor_id("horizon_machine_states"@) == 2225412064813298126,
{
    reveal_strlit("horizon_machine_states");
    reveal(fnv_upto);
    reveal(descriptor_id);
    let name = "horizon_machine_states"@;
    assert(fnv_upto(name, 0) == 0xcbf29ce484222325);
    assert(fnv_upto(name, 1) == 12638197096160295895);
    assert(fnv_upto(name, 2) == 628912987614132648);
    assert(fnv_upto(name, 3) == 3701714910296001902);
    assert(fnv_upto(name, 4) == 4644328098419663589);
    assert(fnv_upto(name, 5) == 3490482655055090733);
    assert(fnv_upto(name, 6) == 9803897035225820198);
    assert(fnv_upto(name, 7) == 6085852346993770072);
    assert(fnv_upto(name, 8) == 10217417885850281445);
    assert(fnv_upto(name, 9) == 14198232624630842904);
    assert(fnv_upto(name, 10) == 5490876174677720987);
    assert(fnv_upto(name, 11) == 14827878789803061864);
    assert(fnv_upto(name, 12) == 7796123555201316352);
    assert(fnv_upto(name, 13) == 12422376382028657771);
    assert(fnv_upto(name, 14) == 17659386825813746815);
    assert(fnv_upto(name, 15) == 5061549295224690734);
    assert(fnv_upto(name, 16) == 6546220701520922627);
    assert(fnv_upto(name, 17) == 15348617648940897872);
    assert(fnv_upto(name, 18) == 6553645207849983788);
    assert(fnv_upto(name, 19) == 7073512696080854999);
    assert(fnv_upto(name, 20) == 16939599729296454137);
    assert(fnv_upto(name, 21) == 8813219804689845268);
    assert(fnv_upto(name, 22) == 14827722768886682373);
}

/// The number of the descriptor of the metric `horizon_machine_os_info`.
pub proof fn lemma_id_of_horizon_machine_os_info()
    ensures
        descriptor_id("horizon_machine_os_info"@) == 3044711714918632179,
{
    reveal_strlit("horizon_machine_os_info");
    reveal(fnv_upto);
    reveal(descriptor_id);
    let name = "horizon_machine_os_info"@;
    assert(fnv_upto(name, 0) == 0xcbf29ce484222325);
    assert(fnv_upto(name, 1) == 12638197096160295895);
    assert(fnv_upto(name, 2) == 628912987614132648);
    assert(fnv_upto(name, 3) == 3701714910296001902);
    assert(fnv_upto(name, 4) == 4644328098419663589);
    assert(fnv_upto(name, 5) == 3490482655055090733);
    assert(fnv_upto(name, 6) == 9803897035225820198);
    assert(fnv_upto(name, 7) == 6085852346993770072);
    assert(fnv_upto(name, 8) == 10217417885850281445);
    assert(fnv_upto(name, 9) == 14198232624630842904);
    assert(fnv_upto(name, 10) == 5490876174677720987);
    assert(fnv_upto(name, 11) == 14827878789803061864);
    assert(fnv_upto(name, 12) == 7796123555201316352);
    assert(fnv_upto(name, 13) == 12422376382028657771);
    assert(fnv_upto(name, 14) == 17659386825813746815);
    assert(fnv_upto(name, 15) == 5061549295224690734);
    assert(fnv_upto(name, 16) == 6546220701520922627);
    assert(fnv_upto(name, 17) == 15348613250894385028);
    assert(fnv_upto(name, 18) == 6549993729733451957);
    assert(fnv_upto(name, 19) == 4728969076293545374);
    assert(fnv_upto(name, 20) == 14750069527005862581);
    assert(fnv_upto(name, 21) == 6008208978903048737);
    assert(fnv_upto(name, 22) == 9419105506644344485);
    assert(fnv_upto(name, 23) == 10654180673149776190);
}

/// The number of the descriptor of the metric `horizon_machine_os_arch_info`.
pub proof fn lemma_id_of_horizon_machine_os_arch_info()
    ensures
        descriptor_id("horizon_machine_os_arch_info"@) == 15778780609942734912,
{
    reveal_strlit("horizon_machine_os_arch_info");
    reveal(fnv_upto);
    reveal(descriptor_id);
    let name = "horizon_machine_os_arch_info"@;
    assert(fnv_upto(name, 0) == 0xcbf29ce484222325);
    assert(fnv_upto(name, 1) == 12638197096160295895);
    assert(fnv_upto(name, 2) == 628912987614132648);
    assert(fnv_upto(name, 3) == 3701714910296001902);
    assert(fnv_upto(name, 4) == 4644328098419663589);
    assert(fnv_upto(name, 5) == 3490482655055090733);
    assert(fnv_upto(name, 6) == 9803897035225820198);
    assert(fnv_upto(name, 7) == 6085852346993770072);
    assert(fnv_upto(name, 8) == 10217417885850281445);
    assert(fnv_upto(name, 9) == 14198232624630842904);
    assert(fnv_upto(name, 10) == 5490876174677720987);
    assert(fnv_upto(name, 11) == 14827878789803061864);
    assert(fnv_upto(name, 12) == 7796123555201316352);
    assert(fnv_upto(name, 13) == 12422376382028657771);
    assert(fnv_upto(name, 14) == 17659386825813746815);
    assert(fnv_upto(name, 15) == 5061549295224690734);
    assert(fnv_upto(name, 16) == 6546220701520922627);
    assert(fnv_upto(name, 17) == 15348613250894385028);
    assert(fnv_upto(name, 18) == 6549993729733451957);
    assert(fnv_upto(name, 19) == 4728969076293545374);
    assert(fnv_upto(name, 20) == 14750078323098888269);
    assert(fnv_upto(name, 21) == 6015804405229216525);
    assert(fnv_upto(name, 22) == 14362750578820412394);
    assert(fnv_upto(name, 23) == 15135360441097930214);
    assert(fnv_upto(name, 24) == 1007856131699276123);
    assert(fnv_upto(name, 25) == 7403003202063560694);
    assert(fnv_upto(name, 26) == 12009458004108779336);
    assert(fnv_upto(name, 27) == 1388592220115106602);
    assert(fnv_upto(name, 28) == 10641997339153593919);
}

} // verus!
