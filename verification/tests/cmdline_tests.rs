use frame_pipeline::cmdline::{is_warp_flag, CommandLine};

fn args(list: &[&str]) -> Vec<Vec<u8>> {
    list.iter().map(|s| s.as_bytes().to_vec()).collect()
}

#[test]
fn warp_flag_is_recognized_in_both_spellings() {
    assert!(is_warp_flag(b"-warp"));
    assert!(is_warp_flag(b"/warp"));
}

#[test]
fn warp_flag_is_case_insensitive() {
    assert!(is_warp_flag(b"-WARP"));
    assert!(is_warp_flag(b"/Warp"));
    assert!(is_warp_flag(b"-wArP"));
}

#[test]
fn near_misses_are_not_the_flag() {
    assert!(!is_warp_flag(b"warp"));
    assert!(!is_warp_flag(b"-warpx"));
    assert!(!is_warp_flag(b"-war"));
    assert!(!is_warp_flag(b"--warp"));
    assert!(!is_warp_flag(b""));
}

#[test]
fn from_args_finds_the_flag_anywhere() {
    let c = CommandLine::from_args(&args(&["renderer.exe", "/WARP"]));
    assert!(c.use_warp_device);
    let c = CommandLine::from_args(&args(&["renderer.exe", "-warp", "extra"]));
    assert!(c.use_warp_device);
}

#[test]
fn from_args_without_the_flag() {
    let c = CommandLine::from_args(&args(&["renderer.exe"]));
    assert!(!c.use_warp_device);
    let c = CommandLine::from_args(&args(&[]));
    assert!(!c.use_warp_device);
    let c = CommandLine::from_args(&args(&["renderer.exe", "warp", "-w"]));
    assert!(!c.use_warp_device);
}

#[test]
fn default_command_line_uses_hardware() {
    let c = CommandLine::default();
    assert!(!c.use_warp_device);
}
