use hachimi_installer::patch::patched_exe_bytes;
use hachimi_installer::process::is_game_process;
use hachimi_installer::window::{centered_origin, RECTExt, Rect};

fn rect(left: i32, top: i32, right: i32, bottom: i32) -> Rect {
    Rect { left, top, right, bottom }
}

#[test]
fn dimensions_of_rect() {
    assert_eq!(rect(10, 20, 110, 70).dimensions(), (100, 50));
    assert_eq!(rect(-50, -40, 50, 40).dimensions(), (100, 80));
}

#[test]
fn window_centered_on_screen() {
    assert_eq!(centered_origin(&rect(0, 0, 1920, 1080), &rect(5, 5, 805, 605)), (560, 240));
    assert_eq!(centered_origin(&rect(100, 50, 1100, 850), &rect(0, 0, 301, 201)), (449, 349));
}

#[test]
fn oversized_window_rounds_toward_zero() {
    assert_eq!(centered_origin(&rect(0, 0, 100, 100), &rect(0, 0, 201, 203)), (-50, -51));
}

fn entry(name: &[u8]) -> Vec<u8> {
    let mut buf = vec![0u8; 260];
    buf[..name.len()].copy_from_slice(name);
    buf
}

#[test]
fn game_process_matches_exact_name() {
    assert!(is_game_process(&entry(b"umamusume.exe")));
    assert!(is_game_process(b"umamusume.exe\0"));
}

#[test]
fn steam_game_process_matches() {
    assert!(is_game_process(&entry(b"UmamusumePrettyDerby_Jpn.exe")));
    assert!(!is_game_process(&entry(b"UmamusumePrettyDerby_Jpn.old.exe")));
    assert!(!is_game_process(&entry(b"umamusumeprettyderby_jpn.exe")));
}

#[test]
fn game_process_ignores_bytes_after_nul() {
    let mut buf = entry(b"umamusume.exe");
    buf[20] = b'x';
    assert!(is_game_process(&buf));
}

#[test]
fn other_processes_do_not_match() {
    assert!(!is_game_process(&entry(b"UmaMusume.exe")));
    assert!(!is_game_process(&entry(b"umamusume.exe2")));
    assert!(!is_game_process(&entry(b"umamusume.ex")));
    assert!(!is_game_process(&entry(b"explorer.exe")));
    assert!(!is_game_process(&entry(b"")));
    assert!(!is_game_process(b"\0"));
}

#[test]
fn patched_exe_is_modded_exe() {
    let exe: Vec<u8> = (0..4000u32).map(|i| (i * 7 % 251) as u8).collect();
    let mut modded = exe.clone();
    modded[100] ^= 0xff;
    modded.extend_from_slice(b"hachimi");
    modded.drain(2000..2100);
    assert_eq!(patched_exe_bytes(&exe, &modded).unwrap(), modded);
}

#[test]
fn patch_between_small_files() {
    assert_eq!(patched_exe_bytes(&[1, 2, 3, 4, 5], &[1, 2, 4, 6]).unwrap(), vec![1, 2, 4, 6]);
    assert_eq!(patched_exe_bytes(&[], &[9, 9]).unwrap(), vec![9, 9]);
    assert_eq!(patched_exe_bytes(&[1, 2, 3], &[]).unwrap(), Vec::<u8>::new());
}

#[test]
fn patching_modded_exe_again_keeps_it() {
    let modded = b"modded executable".to_vec();
    assert_eq!(patched_exe_bytes(&modded, &modded).unwrap(), modded);
    assert!(patched_exe_bytes(b"old", b"new").is_ok());
}
