//! The best-effort system tuners as data: each tuner is a fixed list
//! of registry writes or a fixed external command line, stated here
//! exactly, so the shell that performs them carries no constants of
//! its own. Every tuner is idempotent: a registry modelled as a map is
//! left exactly where one pass left it by any further pass, which the
//! law at the end of this module proves.
use vstd::prelude::*;

verus! {

/// The registry hive a write lands in.
#[derive(Clone, Copy, PartialEq, Eq, Structural, Debug)]
pub enum RegistryRoot {
    CurrentUser,
    LocalMachine,
}

/// One registry write: a double-word `data` stored under `value` at
/// `key` below `root`.
pub struct RegistryWrite {
    pub root: RegistryRoot,
    pub key: String,
    pub value: String,
    pub data: u32,
}

/// The abstract content of one write.
pub struct RegistryWriteV {
    pub root: RegistryRoot,
    pub key: Seq<char>,
    pub value: Seq<char>,
    pub data: u32,
}

impl View for RegistryWrite {
    type V = RegistryWriteV;

    open spec fn view(&self) -> RegistryWriteV {
        RegistryWriteV { root: self.root, key: self.key@, value: self.value@, data: self.data }
    }
}

/// The slot a write fills.
pub open spec fn write_slot(w: RegistryWriteV) -> (RegistryRoot, Seq<char>, Seq<char>) {
    (w.root, w.key, w.value)
}

/// A registry modelled as a map from slots to stored double-words.
pub open spec fn apply_writes(
    reg: Map<(RegistryRoot, Seq<char>, Seq<char>), u32>,
    ws: Seq<RegistryWriteV>,
) -> Map<(RegistryRoot, Seq<char>, Seq<char>), u32>
    decreases ws.len(),
{
    if ws.len() == 0 {
        reg
    } else {
        apply_writes(reg.insert(write_slot(ws[0]), ws[0].data), ws.drop_first())
    }
}

/// A slot is touched by some write of the list.
pub open spec fn slot_written(ws: Seq<RegistryWriteV>, slot: (
    RegistryRoot,
    Seq<char>,
    Seq<char>,
)) -> bool {
    exists|i: int| 0 <= i < ws.len() && write_slot(ws[i]) == slot
}

/// Slots no write touches keep exactly what the registry held.
pub proof fn lemma_writes_frame(
    reg: Map<(RegistryRoot, Seq<char>, Seq<char>), u32>,
    ws: Seq<RegistryWriteV>,
    slot: (RegistryRoot, Seq<char>, Seq<char>),
)
    requires
        !slot_written(ws, slot),
    ensures
        apply_writes(reg, ws).contains_key(slot) == reg.contains_key(slot),
        reg.contains_key(slot) ==> apply_writes(reg, ws)[slot] == reg[slot],
    decreases ws.len(),
{
    if ws.len() > 0 {
        assert(write_slot(ws[0]) != slot);
        assert(forall|i: int|
            0 <= i < ws.drop_first().len() ==> write_slot(#[trigger] ws.drop_first()[i])
                == write_slot(ws[i + 1]));
        lemma_writes_frame(reg.insert(write_slot(ws[0]), ws[0].data), ws.drop_first(), slot);
    }
}

/// What a written slot ends up holding depends on the write list
/// alone, never on what the registry held before.
pub proof fn lemma_writes_pin(
    reg1: Map<(RegistryRoot, Seq<char>, Seq<char>), u32>,
    reg2: Map<(RegistryRoot, Seq<char>, Seq<char>), u32>,
    ws: Seq<RegistryWriteV>,
    slot: (RegistryRoot, Seq<char>, Seq<char>),
)
    requires
        slot_written(ws, slot),
    ensures
        apply_writes(reg1, ws).contains_key(slot),
        apply_writes(reg1, ws)[slot] == apply_writes(reg2, ws)[slot],
    decreases ws.len(),
{
    let rest = ws.drop_first();
    assert(forall|i: int|
        0 <= i < rest.len() ==> write_slot(#[trigger] rest[i]) == write_slot(ws[i + 1]));
    let m1 = reg1.insert(write_slot(ws[0]), ws[0].data);
    let m2 = reg2.insert(write_slot(ws[0]), ws[0].data);
    if slot_written(rest, slot) {
        lemma_writes_pin(m1, m2, rest, slot);
    } else {
        let i = choose|i: int| 0 <= i < ws.len() && write_slot(ws[i]) == slot;
        if i > 0 {
            assert(write_slot(rest[i - 1]) == slot);
        }
        assert(write_slot(ws[0]) == slot);
        lemma_writes_frame(m1, rest, slot);
        lemma_writes_frame(m2, rest, slot);
    }
}

/// Every slot written is present afterwards.
pub proof fn lemma_writes_cover(
    reg: Map<(RegistryRoot, Seq<char>, Seq<char>), u32>,
    ws: Seq<RegistryWriteV>,
    slot: (RegistryRoot, Seq<char>, Seq<char>),
)
    requires
        slot_written(ws, slot),
    ensures
        apply_writes(reg, ws).contains_key(slot),
{
    lemma_writes_pin(reg, reg, ws, slot);
}

/// Re-running a write list moves nothing: the registry after two
/// passes is exactly the registry after one.
pub proof fn lemma_writes_idempotent(
    reg: Map<(RegistryRoot, Seq<char>, Seq<char>), u32>,
    ws: Seq<RegistryWriteV>,
)
    ensures
        apply_writes(apply_writes(reg, ws), ws) == apply_writes(reg, ws),
{
    let m1 = apply_writes(reg, ws);
    let m2 = apply_writes(m1, ws);
    assert forall|slot: (RegistryRoot, Seq<char>, Seq<char>)|
        m1.dom().contains(slot) == m2.dom().contains(slot) by {
        if slot_written(ws, slot) {
            lemma_writes_cover(reg, ws, slot);
            lemma_writes_pin(m1, reg, ws, slot);
        } else {
            lemma_writes_frame(m1, ws, slot);
        }
    }
    assert(m2.dom() =~= m1.dom());
    assert forall|slot: (RegistryRoot, Seq<char>, Seq<char>)|
        m1.dom().contains(slot) implies m2[slot] == m1[slot] by {
        if slot_written(ws, slot) {
            lemma_writes_pin(m1, reg, ws, slot);
        } else {
            lemma_writes_frame(m1, ws, slot);
        }
    }
    assert(m2 =~= m1);
}

/// The power tuner's preference write: adjust visual effects for best
/// performance.
pub fn visual_effects_writes() -> (r: Vec<RegistryWrite>)
    ensures
        r@.len() == 1,
        r@[0]@.root == RegistryRoot::CurrentUser,
        r@[0]@.key == "Software\\Microsoft\\Windows\\CurrentVersion\\Explorer\\VisualEffects"@,
        r@[0]@.value == "VisualFXSetting"@,
        r@[0]@.data == 2,
{
    let mut r: Vec<RegistryWrite> = Vec::new();
    r.push(RegistryWrite {
        root: RegistryRoot::CurrentUser,
        key: "Software\\Microsoft\\Windows\\CurrentVersion\\Explorer\\VisualEffects".to_owned(),
        value: "VisualFXSetting".to_owned(),
        data: 2,
    });
    r
}

/// The overlay tuner's writes: game mode on, the startup panel and the
/// recording overlay off.
pub fn overlay_writes() -> (r: Vec<RegistryWrite>)
    ensures
        r@.len() == 5,
        forall|i: int| 0 <= i < 5 ==> r@[i]@.root == RegistryRoot::CurrentUser,
        forall|i: int| 0 <= i < 3 ==> r@[i]@.key == "Software\\Microsoft\\GameBar"@,
        forall|i: int| 3 <= i < 5 ==> r@[i]@.key == "System\\GameConfigStore"@,
        r@[0]@.value == "AutoGameModeEnabled"@ && r@[0]@.data == 1,
        r@[1]@.value == "AllowAutoGameMode"@ && r@[1]@.data == 1,
        r@[2]@.value == "ShowStartupPanel"@ && r@[2]@.data == 0,
        r@[3]@.value == "GameDVR_Enabled"@ && r@[3]@.data == 0,
        r@[4]@.value == "GameDVR_FSEBehaviorMode"@ && r@[4]@.data == 2,
{
    let mut r: Vec<RegistryWrite> = Vec::new();
    r.push(RegistryWrite {
        root: RegistryRoot::CurrentUser,
        key: "Software\\Microsoft\\GameBar".to_owned(),
        value: "AutoGameModeEnabled".to_owned(),
        data: 1,
    });
    r.push(RegistryWrite {
        root: RegistryRoot::CurrentUser,
        key: "Software\\Microsoft\\GameBar".to_owned(),
        value: "AllowAutoGameMode".to_owned(),
        data: 1,
    });
    r.push(RegistryWrite {
        root: RegistryRoot::CurrentUser,
        key: "Software\\Microsoft\\GameBar".to_owned(),
        value: "ShowStartupPanel".to_owned(),
        data: 0,
    });
    r.push(RegistryWrite {
        root: RegistryRoot::CurrentUser,
        key: "System\\GameConfigStore".to_owned(),
        value: "GameDVR_Enabled".to_owned(),
        data: 0,
    });
    r.push(RegistryWrite {
        root: RegistryRoot::CurrentUser,
        key: "System\\GameConfigStore".to_owned(),
        value: "GameDVR_FSEBehaviorMode".to_owned(),
        data: 2,
    });
    r
}

/// The scheduling-hint write for the game's executable: high priority,
/// effective only with administrator rights and silently without
/// effect otherwise.
pub fn priority_writes() -> (r: Vec<RegistryWrite>)
    ensures
        r@.len() == 1,
        r@[0]@.root == RegistryRoot::LocalMachine,
        r@[0]@.key
            == "SOFTWARE\\Microsoft\\Windows NT\\CurrentVersion\\Image File Execution Options\\League of Legends.exe\\PerfOptions"@,
        r@[0]@.value == "CpuPriorityClass"@,
        r@[0]@.data == 3,
{
    let mut r: Vec<RegistryWrite> = Vec::new();
    r.push(RegistryWrite {
        root: RegistryRoot::LocalMachine,
        key:
            "SOFTWARE\\Microsoft\\Windows NT\\CurrentVersion\\Image File Execution Options\\League of Legends.exe\\PerfOptions".to_owned(),
        value: "CpuPriorityClass".to_owned(),
        data: 3,
    });
    r
}

/// The TCP tuner's registry write: the no-delay preference.
pub fn tcp_registry_writes() -> (r: Vec<RegistryWrite>)
    ensures
        r@.len() == 1,
        r@[0]@.root == RegistryRoot::LocalMachine,
        r@[0]@.key == "SOFTWARE\\Microsoft\\MSMQ\\Parameters"@,
        r@[0]@.value == "TCPNoDelay"@,
        r@[0]@.data == 1,
{
    let mut r: Vec<RegistryWrite> = Vec::new();
    r.push(RegistryWrite {
        root: RegistryRoot::LocalMachine,
        key: "SOFTWARE\\Microsoft\\MSMQ\\Parameters".to_owned(),
        value: "TCPNoDelay".to_owned(),
        data: 1,
    });
    r
}

/// The throttling tuner's writes: no network-throttling limit and full
/// system responsiveness.
pub fn throttling_writes() -> (r: Vec<RegistryWrite>)
    ensures
        r@.len() == 2,
        forall|i: int| 0 <= i < 2 ==> r@[i]@.root == RegistryRoot::LocalMachine,
        forall|i: int|
            0 <= i < 2 ==> r@[i]@.key
                == "SOFTWARE\\Microsoft\\Windows NT\\CurrentVersion\\Multimedia\\SystemProfile"@,
        r@[0]@.value == "NetworkThrottlingIndex"@ && r@[0]@.data == 0xFFFFFFFF,
        r@[1]@.value == "SystemResponsiveness"@ && r@[1]@.data == 0,
{
    let mut r: Vec<RegistryWrite> = Vec::new();
    r.push(RegistryWrite {
        root: RegistryRoot::LocalMachine,
        key: "SOFTWARE\\Microsoft\\Windows NT\\CurrentVersion\\Multimedia\\SystemProfile".to_owned(),
        value: "NetworkThrottlingIndex".to_owned(),
        data: 0xFFFFFFFF,
    });
    r.push(RegistryWrite {
        root: RegistryRoot::LocalMachine,
        key: "SOFTWARE\\Microsoft\\Windows NT\\CurrentVersion\\Multimedia\\SystemProfile".to_owned(),
        value: "SystemResponsiveness".to_owned(),
        data: 0,
    });
    r
}

/// The power-plan selection command: the high-performance scheme by
/// its identifier.
pub fn power_plan_command() -> (r: Vec<String>)
    ensures
        r@.len() == 3,
        r@[0]@ == "powercfg"@,
        r@[1]@ == "-setactive"@,
        r@[2]@ == "8c5e7fda-e8bf-4a96-9a85-a6e23a8c635c"@,
{
    let mut r: Vec<String> = Vec::new();
    r.push("powercfg".to_owned());
    r.push("-setactive".to_owned());
    r.push("8c5e7fda-e8bf-4a96-9a85-a6e23a8c635c".to_owned());
    r
}

/// The resolver-cache flush command.
pub fn flush_dns_command() -> (r: Vec<String>)
    ensures
        r@.len() == 2,
        r@[0]@ == "ipconfig"@,
        r@[1]@ == "/flushdns"@,
{
    let mut r: Vec<String> = Vec::new();
    r.push("ipconfig".to_owned());
    r.push("/flushdns".to_owned());
    r
}

/// The three global TCP settings the network tuner adjusts.
pub fn tcp_commands() -> (r: Vec<Vec<String>>)
    ensures
        r@.len() == 3,
        forall|i: int|
            0 <= i < 3 ==> (#[trigger] r@[i])@.len() == 6 && r@[i]@[0]@ == "netsh"@ && r@[i]@[1]@
                == "int"@ && r@[i]@[2]@ == "tcp"@ && r@[i]@[3]@ == "set"@ && r@[i]@[4]@
                == "global"@,
        r@[0]@[5]@ == "autotuninglevel=normal"@,
        r@[1]@[5]@ == "hystart=disabled"@,
        r@[2]@[5]@ == "dca=enabled"@,
{
    let mut r: Vec<Vec<String>> = Vec::new();
    r.push(netsh_tcp_global("autotuninglevel=normal"));
    r.push(netsh_tcp_global("hystart=disabled"));
    r.push(netsh_tcp_global("dca=enabled"));
    r
}

fn netsh_tcp_global(setting: &str) -> (r: Vec<String>)
    ensures
        r@.len() == 6,
        r@[0]@ == "netsh"@,
        r@[1]@ == "int"@,
        r@[2]@ == "tcp"@,
        r@[3]@ == "set"@,
        r@[4]@ == "global"@,
        r@[5]@ == setting@,
{
    let mut r: Vec<String> = Vec::new();
    r.push("netsh".to_owned());
    r.push("int".to_owned());
    r.push("tcp".to_owned());
    r.push("set".to_owned());
    r.push("global".to_owned());
    r.push(setting.to_owned());
    r
}

} // verus!
