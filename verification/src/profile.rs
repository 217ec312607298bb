//! Tuning profiles: the mode names a caller may ask for and the table
//! of configuration keys each mode overrides, with the resolution that
//! the mode selects. Keys and values are byte strings, as they stand in
//! the configuration file.
use vstd::prelude::*;
use vstd::string::StrSliceExecFns;
use vstd::string::StringSliceAdditionalSpecFns;

verus! {

/// A named tuning profile. An unrecognized name falls back to
/// `Fallback`, which overrides the same keys as `MaxFps`.
#[derive(Clone, Copy, PartialEq, Eq, Structural, Debug)]
pub enum Mode {
    MaxFps,
    Balanced,
    Competitive,
    Fallback,
}

/// The mode a textual name selects: `max_fps`, `balanced` or
/// `competitive`; any other name selects the fallback profile.
pub open spec fn mode_of(name: Seq<u8>) -> Mode {
    if name == seq![109u8, 97u8, 120u8, 95u8, 102u8, 112u8, 115u8] {
        // max_fps
        Mode::MaxFps
    } else if name == seq![98u8, 97u8, 108u8, 97u8, 110u8, 99u8, 101u8, 100u8] {
        // balanced
        Mode::Balanced
    } else if name == seq![99u8, 111u8, 109u8, 112u8, 101u8, 116u8, 105u8, 116u8, 105u8, 118u8, 101u8] {
        // competitive
        Mode::Competitive
    } else {
        Mode::Fallback
    }
}

/// The screen width each mode selects: 1024 for competitive, 1600 for
/// balanced, 1280 otherwise.
pub open spec fn width_value(mode: Mode) -> Seq<u8> {
    match mode {
        Mode::Competitive => seq![49u8, 48u8, 50u8, 52u8],
        Mode::Balanced => seq![49u8, 54u8, 48u8, 48u8],
        _ => seq![49u8, 50u8, 56u8, 48u8],
    }
}

/// The screen height each mode selects: 768 for competitive, 900 for
/// balanced, 720 otherwise.
pub open spec fn height_value(mode: Mode) -> Seq<u8> {
    match mode {
        Mode::Competitive => seq![55u8, 54u8, 56u8],
        Mode::Balanced => seq![57u8, 48u8, 48u8],
        _ => seq![55u8, 50u8, 48u8],
    }
}

/// The value the profile writes for `key`, or `None` where the key is
/// not one the profile overrides. Every key is spelled in its trimmed
/// form; only `Width` and `Height` depend on the mode.
pub open spec fn override_for(mode: Mode, key: Seq<u8>) -> Option<Seq<u8>> {
    if key == seq![87u8, 105u8, 110u8, 100u8, 111u8, 119u8, 77u8, 111u8, 100u8, 101u8] {
        // WindowMode=0
        Some(seq![48u8])
    } else if key == seq![87u8, 105u8, 100u8, 116u8, 104u8] {
        // Width
        Some(width_value(mode))
    } else if key == seq![72u8, 101u8, 105u8, 103u8, 104u8, 116u8] {
        // Height
        Some(height_value(mode))
    } else if key == seq![71u8, 114u8, 97u8, 112u8, 104u8, 105u8, 99u8, 115u8] {
        // Graphics=0
        Some(seq![48u8])
    } else if key == seq![83u8, 104u8, 97u8, 100u8, 111u8, 119u8, 115u8] {
        // Shadows=0
        Some(seq![48u8])
    } else if key == seq![69u8, 102u8, 102u8, 101u8, 99u8, 116u8, 115u8, 81u8, 117u8, 97u8, 108u8, 105u8, 116u8, 121u8] {
        // EffectsQuality=0
        Some(seq![48u8])
    } else if key == seq![69u8, 110u8, 118u8, 105u8, 114u8, 111u8, 110u8, 109u8, 101u8, 110u8, 116u8, 81u8, 117u8, 97u8, 108u8, 105u8, 116u8, 121u8] {
        // EnvironmentQuality=0
        Some(seq![48u8])
    } else if key == seq![67u8, 104u8, 97u8, 114u8, 97u8, 99u8, 116u8, 101u8, 114u8, 81u8, 117u8, 97u8, 108u8, 105u8, 116u8, 121u8] {
        // CharacterQuality=0
        Some(seq![48u8])
    } else if key == seq![67u8, 104u8, 97u8, 114u8, 97u8, 99u8, 116u8, 101u8, 114u8, 73u8, 110u8, 107u8, 105u8, 110u8, 103u8] {
        // CharacterInking=0
        Some(seq![48u8])
    } else if key == seq![70u8, 114u8, 97u8, 109u8, 101u8, 67u8, 97u8, 112u8, 84u8, 121u8, 112u8, 101u8] {
        // FrameCapType=2
        Some(seq![50u8])
    } else if key == seq![87u8, 97u8, 105u8, 116u8, 70u8, 111u8, 114u8, 86u8, 101u8, 114u8, 116u8, 105u8, 99u8, 97u8, 108u8, 83u8, 121u8, 110u8, 99u8] {
        // WaitForVerticalSync=0
        Some(seq![48u8])
    } else if key == seq![69u8, 110u8, 97u8, 98u8, 108u8, 101u8, 80u8, 97u8, 114u8, 116u8, 105u8, 99u8, 108u8, 101u8, 79u8, 112u8, 116u8, 105u8, 109u8, 105u8, 122u8, 97u8, 116u8, 105u8, 111u8, 110u8, 115u8] {
        // EnableParticleOptimizations=1
        Some(seq![49u8])
    } else if key == seq![80u8, 101u8, 114u8, 80u8, 105u8, 120u8, 101u8, 108u8, 80u8, 111u8, 105u8, 110u8, 116u8, 76u8, 105u8, 103u8, 104u8, 116u8, 105u8, 110u8, 103u8] {
        // PerPixelPointLighting=0
        Some(seq![48u8])
    } else if key == seq![65u8, 100u8, 118u8, 97u8, 110u8, 99u8, 101u8, 100u8, 82u8, 101u8, 102u8, 108u8, 101u8, 99u8, 116u8, 105u8, 111u8, 110u8] {
        // AdvancedReflection=0
        Some(seq![48u8])
    } else if key == seq![69u8, 110u8, 97u8, 98u8, 108u8, 101u8, 72u8, 85u8, 68u8, 65u8, 110u8, 105u8, 109u8, 97u8, 116u8, 105u8, 111u8, 110u8, 115u8] {
        // EnableHUDAnimations=0
        Some(seq![48u8])
    } else if key == seq![68u8, 105u8, 115u8, 97u8, 98u8, 108u8, 101u8, 83u8, 99u8, 114u8, 101u8, 101u8, 110u8, 83u8, 104u8, 97u8, 107u8, 101u8] {
        // DisableScreenShake=1
        Some(seq![49u8])
    } else if key == seq![65u8, 110u8, 116u8, 105u8, 97u8, 108u8, 105u8, 97u8, 115u8, 105u8, 110u8, 103u8] {
        // Antialiasing=0
        Some(seq![48u8])
    } else if key == seq![83u8, 111u8, 102u8, 116u8, 119u8, 97u8, 114u8, 101u8, 77u8, 111u8, 117u8, 115u8, 101u8] {
        // SoftwareMouse=0
        Some(seq![48u8])
    } else {
        None
    }
}

/// Two byte vectors hold the same bytes.
pub fn bytes_eq(a: &Vec<u8>, b: &Vec<u8>) -> (r: bool)
    ensures
        r == (a@ == b@),
{
    if a.len() != b.len() {
        return false;
    }
    let mut i: usize = 0;
    while i < a.len()
        invariant
            0 <= i <= a.len(),
            a.len() == b.len(),
            forall|j: int| 0 <= j < i ==> a@[j] == b@[j],
        decreases a.len() - i,
    {
        if a[i] != b[i] {
            return false;
        }
        i = i + 1;
    }
    proof {
        assert(a@ =~= b@);
    }
    true
}

/// Parse a profile name, falling back where it is unrecognized.
pub fn parse_mode(name: &str) -> (r: Mode)
    ensures
        r == mode_of(name.spec_bytes()),
{
    let b = name.as_bytes_vec();
    let max_fps: Vec<u8> = vec![109u8, 97u8, 120u8, 95u8, 102u8, 112u8, 115u8];
    proof {
        assert(max_fps@ =~= seq![109u8, 97u8, 120u8, 95u8, 102u8, 112u8, 115u8]);
    }
    if bytes_eq(&b, &max_fps) {
        return Mode::MaxFps;
    }
    let balanced: Vec<u8> = vec![98u8, 97u8, 108u8, 97u8, 110u8, 99u8, 101u8, 100u8];
    proof {
        assert(balanced@ =~= seq![98u8, 97u8, 108u8, 97u8, 110u8, 99u8, 101u8, 100u8]);
    }
    if bytes_eq(&b, &balanced) {
        return Mode::Balanced;
    }
    let competitive: Vec<u8> = vec![99u8, 111u8, 109u8, 112u8, 101u8, 116u8, 105u8, 116u8, 105u8, 118u8, 101u8];
    proof {
        assert(competitive@ =~= seq![99u8, 111u8, 109u8, 112u8, 101u8, 116u8, 105u8, 116u8, 105u8, 118u8, 101u8]);
    }
    if bytes_eq(&b, &competitive) {
        return Mode::Competitive;
    }
    Mode::Fallback
}

fn width_exec(mode: &Mode) -> (r: Vec<u8>)
    ensures
        r@ == width_value(*mode),
{
    match mode {
        Mode::Competitive => {
            let v: Vec<u8> = vec![49u8, 48u8, 50u8, 52u8];
            proof {
                assert(v@ =~= seq![49u8, 48u8, 50u8, 52u8]);
            }
            v
        }
        Mode::Balanced => {
            let v: Vec<u8> = vec![49u8, 54u8, 48u8, 48u8];
            proof {
                assert(v@ =~= seq![49u8, 54u8, 48u8, 48u8]);
            }
            v
        }
        _ => {
            let v: Vec<u8> = vec![49u8, 50u8, 56u8, 48u8];
            proof {
                assert(v@ =~= seq![49u8, 50u8, 56u8, 48u8]);
            }
            v
        }
    }
}

fn height_exec(mode: &Mode) -> (r: Vec<u8>)
    ensures
        r@ == height_value(*mode),
{
    match mode {
        Mode::Competitive => {
            let v: Vec<u8> = vec![55u8, 54u8, 56u8];
            proof {
                assert(v@ =~= seq![55u8, 54u8, 56u8]);
            }
            v
        }
        Mode::Balanced => {
            let v: Vec<u8> = vec![57u8, 48u8, 48u8];
            proof {
                assert(v@ =~= seq![57u8, 48u8, 48u8]);
            }
            v
        }
        _ => {
            let v: Vec<u8> = vec![55u8, 50u8, 48u8];
            proof {
                assert(v@ =~= seq![55u8, 50u8, 48u8]);
            }
            v
        }
    }
}

/// The override the profile holds for `key`, exactly as `override_for`
/// has it.
pub fn override_value(mode: &Mode, key: &Vec<u8>) -> (r: Option<Vec<u8>>)
    ensures
        r matches Some(v) ==> override_for(*mode, key@) == Some(v@),
        r is None ==> override_for(*mode, key@) is None,
{
    let k0: Vec<u8> = vec![87u8, 105u8, 110u8, 100u8, 111u8, 119u8, 77u8, 111u8, 100u8, 101u8];
    proof {
        assert(k0@ =~= seq![87u8, 105u8, 110u8, 100u8, 111u8, 119u8, 77u8, 111u8, 100u8, 101u8]);
    }
    if bytes_eq(key, &k0) {
        // WindowMode
        let v: Vec<u8> = vec![48u8];
        proof {
            assert(v@ =~= seq![48u8]);
        }
        return Some(v);
    }
    let k1: Vec<u8> = vec![87u8, 105u8, 100u8, 116u8, 104u8];
    proof {
        assert(k1@ =~= seq![87u8, 105u8, 100u8, 116u8, 104u8]);
    }
    if bytes_eq(key, &k1) {
        // Width
        let v = width_exec(mode);
        return Some(v);
    }
    let k2: Vec<u8> = vec![72u8, 101u8, 105u8, 103u8, 104u8, 116u8];
    proof {
        assert(k2@ =~= seq![72u8, 101u8, 105u8, 103u8, 104u8, 116u8]);
    }
    if bytes_eq(key, &k2) {
        // Height
        let v = height_exec(mode);
        return Some(v);
    }
    let k3: Vec<u8> = vec![71u8, 114u8, 97u8, 112u8, 104u8, 105u8, 99u8, 115u8];
    proof {
        assert(k3@ =~= seq![71u8, 114u8, 97u8, 112u8, 104u8, 105u8, 99u8, 115u8]);
    }
    if bytes_eq(key, &k3) {
        // Graphics
        let v: Vec<u8> = vec![48u8];
        proof {
            assert(v@ =~= seq![48u8]);
        }
        return Some(v);
    }
    let k4: Vec<u8> = vec![83u8, 104u8, 97u8, 100u8, 111u8, 119u8, 115u8];
    proof {
        assert(k4@ =~= seq![83u8, 104u8, 97u8, 100u8, 111u8, 119u8, 115u8]);
    }
    if bytes_eq(key, &k4) {
        // Shadows
        let v: Vec<u8> = vec![48u8];
        proof {
            assert(v@ =~= seq![48u8]);
        }
        return Some(v);
    }
    let k5: Vec<u8> = vec![69u8, 102u8, 102u8, 101u8, 99u8, 116u8, 115u8, 81u8, 117u8, 97u8, 108u8, 105u8, 116u8, 121u8];
    proof {
        assert(k5@ =~= seq![69u8, 102u8, 102u8, 101u8, 99u8, 116u8, 115u8, 81u8, 117u8, 97u8, 108u8, 105u8, 116u8, 121u8]);
    }
    if bytes_eq(key, &k5) {
        // EffectsQuality
        let v: Vec<u8> = vec![48u8];
        proof {
            assert(v@ =~= seq![48u8]);
        }
        return Some(v);
    }
    let k6: Vec<u8> = vec![69u8, 110u8, 118u8, 105u8, 114u8, 111u8, 110u8, 109u8, 101u8, 110u8, 116u8, 81u8, 117u8, 97u8, 108u8, 105u8, 116u8, 121u8];
    proof {
        assert(k6@ =~= seq![69u8, 110u8, 118u8, 105u8, 114u8, 111u8, 110u8, 109u8, 101u8, 110u8, 116u8, 81u8, 117u8, 97u8, 108u8, 105u8, 116u8, 121u8]);
    }
    if bytes_eq(key, &k6) {
        // EnvironmentQuality
        let v: Vec<u8> = vec![48u8];
        proof {
            assert(v@ =~= seq![48u8]);
        }
        return Some(v);
    }
    let k7: Vec<u8> = vec![67u8, 104u8, 97u8, 114u8, 97u8, 99u8, 116u8, 101u8, 114u8, 81u8, 117u8, 97u8, 108u8, 105u8, 116u8, 121u8];
    proof {
        assert(k7@ =~= seq![67u8, 104u8, 97u8, 114u8, 97u8, 99u8, 116u8, 101u8, 114u8, 81u8, 117u8, 97u8, 108u8, 105u8, 116u8, 121u8]);
    }
    if bytes_eq(key, &k7) {
        // CharacterQuality
        let v: Vec<u8> = vec![48u8];
        proof {
            assert(v@ =~= seq![48u8]);
        }
        return Some(v);
    }
    let k8: Vec<u8> = vec![67u8, 104u8, 97u8, 114u8, 97u8, 99u8, 116u8, 101u8, 114u8, 73u8, 110u8, 107u8, 105u8, 110u8, 103u8];
    proof {
        assert(k8@ =~= seq![67u8, 104u8, 97u8, 114u8, 97u8, 99u8, 116u8, 101u8, 114u8, 73u8, 110u8, 107u8, 105u8, 110u8, 103u8]);
    }
    if bytes_eq(key, &k8) {
        // CharacterInking
        let v: Vec<u8> = vec![48u8];
        proof {
            assert(v@ =~= seq![48u8]);
        }
        return Some(v);
    }
    let k9: Vec<u8> = vec![70u8, 114u8, 97u8, 109u8, 101u8, 67u8, 97u8, 112u8, 84u8, 121u8, 112u8, 101u8];
    proof {
        assert(k9@ =~= seq![70u8, 114u8, 97u8, 109u8, 101u8, 67u8, 97u8, 112u8, 84u8, 121u8, 112u8, 101u8]);
    }
    if bytes_eq(key, &k9) {
        // FrameCapType
        let v: Vec<u8> = vec![50u8];
        proof {
            assert(v@ =~= seq![50u8]);
        }
        return Some(v);
    }
    let k10: Vec<u8> = vec![87u8, 97u8, 105u8, 116u8, 70u8, 111u8, 114u8, 86u8, 101u8, 114u8, 116u8, 105u8, 99u8, 97u8, 108u8, 83u8, 121u8, 110u8, 99u8];
    proof {
        assert(k10@ =~= seq![87u8, 97u8, 105u8, 116u8, 70u8, 111u8, 114u8, 86u8, 101u8, 114u8, 116u8, 105u8, 99u8, 97u8, 108u8, 83u8, 121u8, 110u8, 99u8]);
    }
    if bytes_eq(key, &k10) {
        // WaitForVerticalSync
        let v: Vec<u8> = vec![48u8];
        proof {
            assert(v@ =~= seq![48u8]);
        }
        return Some(v);
    }
    let k11: Vec<u8> = vec![69u8, 110u8, 97u8, 98u8, 108u8, 101u8, 80u8, 97u8, 114u8, 116u8, 105u8, 99u8, 108u8, 101u8, 79u8, 112u8, 116u8, 105u8, 109u8, 105u8, 122u8, 97u8, 116u8, 105u8, 111u8, 110u8, 115u8];
    proof {
        assert(k11@ =~= seq![69u8, 110u8, 97u8, 98u8, 108u8, 101u8, 80u8, 97u8, 114u8, 116u8, 105u8, 99u8, 108u8, 101u8, 79u8, 112u8, 116u8, 105u8, 109u8, 105u8, 122u8, 97u8, 116u8, 105u8, 111u8, 110u8, 115u8]);
    }
    if bytes_eq(key, &k11) {
        // EnableParticleOptimizations
        let v: Vec<u8> = vec![49u8];
        proof {
            assert(v@ =~= seq![49u8]);
        }
        return Some(v);
    }
    let k12: Vec<u8> = vec![80u8, 101u8, 114u8, 80u8, 105u8, 120u8, 101u8, 108u8, 80u8, 111u8, 105u8, 110u8, 116u8, 76u8, 105u8, 103u8, 104u8, 116u8, 105u8, 110u8, 103u8];
    proof {
        assert(k12@ =~= seq![80u8, 101u8, 114u8, 80u8, 105u8, 120u8, 101u8, 108u8, 80u8, 111u8, 105u8, 110u8, 116u8, 76u8, 105u8, 103u8, 104u8, 116u8, 105u8, 110u8, 103u8]);
    }
    if bytes_eq(key, &k12) {
        // PerPixelPointLighting
        let v: Vec<u8> = vec![48u8];
        proof {
            assert(v@ =~= seq![48u8]);
        }
        return Some(v);
    }
    let k13: Vec<u8> = vec![65u8, 100u8, 118u8, 97u8, 110u8, 99u8, 101u8, 100u8, 82u8, 101u8, 102u8, 108u8, 101u8, 99u8, 116u8, 105u8, 111u8, 110u8];
    proof {
        assert(k13@ =~= seq![65u8, 100u8, 118u8, 97u8, 110u8, 99u8, 101u8, 100u8, 82u8, 101u8, 102u8, 108u8, 101u8, 99u8, 116u8, 105u8, 111u8, 110u8]);
    }
    if bytes_eq(key, &k13) {
        // AdvancedReflection
        let v: Vec<u8> = vec![48u8];
        proof {
            assert(v@ =~= seq![48u8]);
        }
        return Some(v);
    }
    let k14: Vec<u8> = vec![69u8, 110u8, 97u8, 98u8, 108u8, 101u8, 72u8, 85u8, 68u8, 65u8, 110u8, 105u8, 109u8, 97u8, 116u8, 105u8, 111u8, 110u8, 115u8];
    proof {
        assert(k14@ =~= seq![69u8, 110u8, 97u8, 98u8, 108u8, 101u8, 72u8, 85u8, 68u8, 65u8, 110u8, 105u8, 109u8, 97u8, 116u8, 105u8, 111u8, 110u8, 115u8]);
    }
    if bytes_eq(key, &k14) {
        // EnableHUDAnimations
        let v: Vec<u8> = vec![48u8];
        proof {
            assert(v@ =~= seq![48u8]);
        }
        return Some(v);
    }
    let k15: Vec<u8> = vec![68u8, 105u8, 115u8, 97u8, 98u8, 108u8, 101u8, 83u8, 99u8, 114u8, 101u8, 101u8, 110u8, 83u8, 104u8, 97u8, 107u8, 101u8];
    proof {
        assert(k15@ =~= seq![68u8, 105u8, 115u8, 97u8, 98u8, 108u8, 101u8, 83u8, 99u8, 114u8, 101u8, 101u8, 110u8, 83u8, 104u8, 97u8, 107u8, 101u8]);
    }
    if bytes_eq(key, &k15) {
        // DisableScreenShake
        let v: Vec<u8> = vec![49u8];
        proof {
            assert(v@ =~= seq![49u8]);
        }
        return Some(v);
    }
    let k16: Vec<u8> = vec![65u8, 110u8, 116u8, 105u8, 97u8, 108u8, 105u8, 97u8, 115u8, 105u8, 110u8, 103u8];
    proof {
        assert(k16@ =~= seq![65u8, 110u8, 116u8, 105u8, 97u8, 108u8, 105u8, 97u8, 115u8, 105u8, 110u8, 103u8]);
    }
    if bytes_eq(key, &k16) {
        // Antialiasing
        let v: Vec<u8> = vec![48u8];
        proof {
            assert(v@ =~= seq![48u8]);
        }
        return Some(v);
    }
    let k17: Vec<u8> = vec![83u8, 111u8, 102u8, 116u8, 119u8, 97u8, 114u8, 101u8, 77u8, 111u8, 117u8, 115u8, 101u8];
    proof {
        assert(k17@ =~= seq![83u8, 111u8, 102u8, 116u8, 119u8, 97u8, 114u8, 101u8, 77u8, 111u8, 117u8, 115u8, 101u8]);
    }
    if bytes_eq(key, &k17) {
        // SoftwareMouse
        let v: Vec<u8> = vec![48u8];
        proof {
            assert(v@ =~= seq![48u8]);
        }
        return Some(v);
    }
    None
}

/// A value the profile writes never holds a line feed nor a carriage
/// return: rewriting a line never opens a new one.
pub proof fn lemma_override_value_clean(mode: Mode, key: Seq<u8>)
    ensures
        override_for(mode, key) matches Some(v) ==> crate::lines::no_byte(
            v,
            crate::lines::NL,
        ) && crate::lines::no_byte(v, crate::lines::CR),
{
}

} // verus!
