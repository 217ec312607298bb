use game_tuner::patch::{CfgError, ConfigPatcher};
use game_tuner::profile::{parse_mode, Mode};

fn patch_bytes(content: &[u8], mode: Mode) -> Vec<u8> {
    let mut p = ConfigPatcher::new(Some(content.to_vec()));
    p.apply(mode).expect("apply should succeed on existing content");
    p.live.expect("live content present after apply")
}

#[test]
fn competitive_scenario_rewrites_matched_keys_only() {
    let input = b"Width=1920\r\nHeight=1080\r\nUnrelatedKey=foo\r\n";
    let out = patch_bytes(input, Mode::Competitive);
    assert_eq!(out, b"Width=1024\r\nHeight=768\r\nUnrelatedKey=foo\r\n".to_vec());
}

#[test]
fn max_fps_and_balanced_resolutions() {
    let input = b"Width=1920\r\nHeight=1080\r\n";
    assert_eq!(
        patch_bytes(input, Mode::MaxFps),
        b"Width=1280\r\nHeight=720\r\n".to_vec()
    );
    assert_eq!(
        patch_bytes(input, Mode::Balanced),
        b"Width=1600\r\nHeight=900\r\n".to_vec()
    );
    assert_eq!(
        patch_bytes(input, Mode::Fallback),
        b"Width=1280\r\nHeight=720\r\n".to_vec()
    );
}

#[test]
fn quality_keys_are_overridden() {
    let input = b"Shadows=2\r\nFrameCapType=7\r\nDisableScreenShake=0\r\nEnableParticleOptimizations=0\r\n";
    let out = patch_bytes(input, Mode::MaxFps);
    assert_eq!(
        out,
        b"Shadows=0\r\nFrameCapType=2\r\nDisableScreenShake=1\r\nEnableParticleOptimizations=1\r\n"
            .to_vec()
    );
}

#[test]
fn keys_are_trimmed_before_matching() {
    let input = b"  Width  =1920\r\n";
    let out = patch_bytes(input, Mode::Competitive);
    assert_eq!(out, b"Width=1024\r\n".to_vec());
}

#[test]
fn line_endings_are_normalized_to_crlf() {
    let input = b"Width=1920\nSomethingElse=3\n";
    let out = patch_bytes(input, Mode::Competitive);
    assert_eq!(out, b"Width=1024\r\nSomethingElse=3\r\n".to_vec());
}

#[test]
fn final_line_without_newline_is_closed() {
    let input = b"Width=1920";
    let out = patch_bytes(input, Mode::Competitive);
    assert_eq!(out, b"Width=1024\r\n".to_vec());
}

#[test]
fn lines_without_separator_pass_through() {
    let input = b"[General]\r\nWidth=1920\r\n\r\n";
    let out = patch_bytes(input, Mode::Competitive);
    assert_eq!(out, b"[General]\r\nWidth=1024\r\n\r\n".to_vec());
}

#[test]
fn apply_twice_is_byte_identical() {
    let input = b"Width=1920\r\nHeight=1080\r\nUnrelatedKey=foo\r\nShadows=2\r\n";
    let mut p = ConfigPatcher::new(Some(input.to_vec()));
    p.apply(Mode::Competitive).unwrap();
    let once = p.live.clone().unwrap();
    p.apply(Mode::Competitive).unwrap();
    let twice = p.live.clone().unwrap();
    assert_eq!(once, twice);
}

#[test]
fn backup_holds_pristine_bytes_after_many_applies() {
    let input = b"Width=1920\r\nHeight=1080\r\n";
    let mut p = ConfigPatcher::new(Some(input.to_vec()));
    p.apply(Mode::Competitive).unwrap();
    p.apply(Mode::MaxFps).unwrap();
    p.apply(Mode::Balanced).unwrap();
    assert_eq!(p.backup.clone().unwrap(), input.to_vec());
}

#[test]
fn restore_recovers_original_after_applies() {
    let input = b"Width=1920\nHeight=1080\nUnrelatedKey=foo";
    let mut p = ConfigPatcher::new(Some(input.to_vec()));
    p.apply(Mode::Competitive).unwrap();
    p.apply(Mode::Balanced).unwrap();
    p.restore().unwrap();
    assert_eq!(p.live.clone().unwrap(), input.to_vec());
    // The backup stays in place, so a restore is repeatable.
    p.restore().unwrap();
    assert_eq!(p.live.unwrap(), input.to_vec());
}

#[test]
fn restore_without_backup_fails_not_found() {
    let mut p = ConfigPatcher::new(Some(b"Width=1920\r\n".to_vec()));
    let r = p.restore();
    assert_eq!(r, Err(CfgError::NotFound));
    // Nothing moved.
    assert_eq!(p.live.unwrap(), b"Width=1920\r\n".to_vec());
    assert!(p.backup.is_none());
}

#[test]
fn apply_on_missing_file_fails_not_found() {
    let mut p = ConfigPatcher::new(None);
    let r = p.apply(Mode::Competitive);
    assert_eq!(r, Err(CfgError::NotFound));
    assert!(p.live.is_none());
    assert!(p.backup.is_none());
}

#[test]
fn parse_mode_names() {
    assert_eq!(parse_mode("max_fps"), Mode::MaxFps);
    assert_eq!(parse_mode("balanced"), Mode::Balanced);
    assert_eq!(parse_mode("competitive"), Mode::Competitive);
    assert_eq!(parse_mode("anything else"), Mode::Fallback);
    assert_eq!(parse_mode(""), Mode::Fallback);
}

#[test]
fn empty_content_stays_empty() {
    let out = patch_bytes(b"", Mode::Competitive);
    assert_eq!(out, Vec::<u8>::new());
}
