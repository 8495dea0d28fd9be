use dsh_desktop::service::{
    detect, kill_plan, lookup_command, needs_wsl_probe, parse_probe_text, plan_launch,
    timeout_hint, wsl_npx_path, wsl_probe_command, KillStep, LaunchError, LaunchMode,
    ModeAvailability, Platform, ProbeOutput, StdioSetting, DSH_WEB_COMMAND, SERVICE_HOST,
    SERVICE_PORT, SERVICE_URL, WSL_KILL_SCRIPT, WSL_LAUNCH_SCRIPT, WSL_PROBE_SCRIPT,
};

fn probe(success: bool, stdout: &[u8]) -> Option<ProbeOutput> {
    Some(ProbeOutput { success, stdout: stdout.to_vec() })
}

fn chars(s: &str) -> Vec<char> {
    s.chars().collect()
}

fn args(c: &dsh_desktop::service::CommandSpec) -> Vec<&str> {
    c.args.iter().map(|a| a.as_str()).collect()
}

#[test]
fn timeout_hint_per_mode() {
    assert_eq!(
        timeout_hint(LaunchMode::Wsl),
        "服务启动超时，请确认 WSL 发行版内已安装 Node.js（npx）后重试"
    );
    assert_eq!(
        timeout_hint(LaunchMode::Native),
        "服务启动超时，请确认本机已安装 Node.js / npx 后重试"
    );
}

#[test]
fn detect_elsewhere_offers_native_only() {
    let r = detect(Platform::Other, None, None);
    assert_eq!(r, ModeAvailability { native: true, wsl: false });
    let r = detect(Platform::Other, Some(false), probe(true, b"__PROBE__/usr/bin/npx__END__\n"));
    assert_eq!(r, ModeAvailability { native: true, wsl: false });
}

#[test]
fn detect_on_windows_uses_probes() {
    let r = detect(Platform::Windows, Some(true), probe(true, b"__PROBE__/usr/bin/npx__END__\n"));
    assert_eq!(r, ModeAvailability { native: true, wsl: true });
    let r = detect(Platform::Windows, Some(false), None);
    assert_eq!(r, ModeAvailability { native: false, wsl: false });
    let r = detect(Platform::Windows, None, probe(false, b"__PROBE__/usr/bin/npx__END__\n"));
    assert_eq!(r, ModeAvailability { native: false, wsl: false });
    // an installed distribution counts, whether or not it has its own npx
    let r = detect(Platform::Windows, Some(true), probe(true, b"__PROBE__/mnt/c/nodejs/npx__END__\n"));
    assert_eq!(r, ModeAvailability { native: true, wsl: true });
    let r = detect(Platform::Windows, Some(false), probe(true, b"__PROBE____END__\n"));
    assert_eq!(r, ModeAvailability { native: false, wsl: true });
    // but starting in WSL mode there is still refused
    assert!(matches!(
        plan_launch(Platform::Windows, LaunchMode::Wsl, probe(true, b"__PROBE____END__\n")),
        Err(LaunchError::WslNodeMissing)
    ));
}

#[test]
fn probe_path_among_escape_sequences() {
    let out = b"\x1b]0;user@host: ~\x07Welcome\r\n__PROBE__  /home/u/.nvm/versions/node/v20/bin/npx \t__END__\r\nlogout\n";
    let p = wsl_npx_path(&probe(true, out));
    assert_eq!(p.as_deref(), Some("/home/u/.nvm/versions/node/v20/bin/npx"));
}

#[test]
fn probe_path_rejects_empty_and_windows_npx() {
    assert_eq!(wsl_npx_path(&probe(true, b"__PROBE____END__\n")), None);
    assert_eq!(wsl_npx_path(&probe(true, b"__PROBE__ \t __END__\n")), None);
    assert_eq!(wsl_npx_path(&probe(true, b"__PROBE__/mnt/c/Program Files/nodejs/npx__END__")), None);
    assert_eq!(wsl_npx_path(&probe(true, b"no markers here")), None);
    assert_eq!(wsl_npx_path(&probe(true, b"__PROBE__/usr/bin/npx")), None);
    assert_eq!(wsl_npx_path(&None), None);
}

#[test]
fn probe_path_takes_first_markers() {
    let p = parse_probe_text(&chars("x__PROBE__/a/npx__END__ __PROBE__/b/npx__END__"));
    assert_eq!(p.as_deref(), Some("/a/npx"));
    // the end marker is searched for after the begin marker only
    let p = parse_probe_text(&chars("__END__ __PROBE__/c/npx__END__"));
    assert_eq!(p.as_deref(), Some("/c/npx"));
    // `/mnt` without the slash is not the Windows mount
    let p = parse_probe_text(&chars("__PROBE__/mntx/npx__END__"));
    assert_eq!(p.as_deref(), Some("/mntx/npx"));
}

#[test]
fn probe_path_trims_unicode_white_space() {
    let p = parse_probe_text(&chars("__PROBE__\u{3000}\u{a0}/opt/npx\u{2003}\n__END__"));
    assert_eq!(p.as_deref(), Some("/opt/npx"));
}

#[test]
fn probe_output_with_invalid_utf8_is_decoded_lossily() {
    let mut out = vec![0xffu8, 0xfe];
    out.extend_from_slice(b"__PROBE__/usr/local/bin/npx__END__");
    let p = wsl_npx_path(&probe(true, &out));
    assert_eq!(p.as_deref(), Some("/usr/local/bin/npx"));
    let mut out = b"__PROBE__/usr/".to_vec();
    out.push(0xff);
    out.extend_from_slice(b"/npx__END__");
    let p = wsl_npx_path(&probe(true, &out));
    assert_eq!(p.as_deref(), Some("/usr/\u{fffd}/npx"));
}

#[test]
fn probe_round_trip_concrete() {
    let prefix = "banner\r\n";
    let path = "/home/me/.local/share/mise/shims/npx";
    let text = format!("{prefix}__PROBE__{path}__END__\nexit\n");
    assert_eq!(parse_probe_text(&chars(&text)).as_deref(), Some(path));
}

#[test]
fn probe_script_frames_the_path() {
    assert!(WSL_PROBE_SCRIPT.contains("__PROBE__%s__END__"));
    assert!(WSL_PROBE_SCRIPT.ends_with("exit\n"));
}

#[test]
fn wsl_probe_needed_only_for_wsl_on_windows() {
    assert!(needs_wsl_probe(Platform::Windows, LaunchMode::Wsl));
    assert!(!needs_wsl_probe(Platform::Windows, LaunchMode::Native));
    assert!(!needs_wsl_probe(Platform::Other, LaunchMode::Wsl));
    assert!(!needs_wsl_probe(Platform::Other, LaunchMode::Native));
}

#[test]
fn launch_native_on_windows() {
    let plan = plan_launch(Platform::Windows, LaunchMode::Native, None).unwrap();
    assert_eq!(plan.command.program, "cmd");
    assert_eq!(args(&plan.command), vec!["/C", "npx --yes @deepseek-ai/dsh web"]);
    assert_eq!(plan.command.stdin, StdioSetting::Null);
    assert_eq!(plan.command.stdout, StdioSetting::Null);
    assert_eq!(plan.command.stderr, StdioSetting::Null);
    assert!(plan.command.hide_console);
    assert!(plan.stdin_script.is_none());
}

#[test]
fn launch_wsl_on_windows() {
    let plan = plan_launch(
        Platform::Windows,
        LaunchMode::Wsl,
        probe(true, b"__PROBE__/usr/bin/npx__END__"),
    )
    .unwrap();
    assert_eq!(plan.command.program, "wsl");
    assert_eq!(args(&plan.command), vec!["bash", "-il"]);
    assert_eq!(plan.command.stdin, StdioSetting::Piped);
    assert_eq!(plan.command.stdout, StdioSetting::Null);
    assert_eq!(plan.command.stderr, StdioSetting::Null);
    assert!(plan.command.hide_console);
    assert_eq!(plan.stdin_script, Some(WSL_LAUNCH_SCRIPT));
    assert!(WSL_LAUNCH_SCRIPT.starts_with("echo $$ > /tmp/dsh-desktop.pid\n"));
    assert!(WSL_LAUNCH_SCRIPT.ends_with("exec \"$NPX\" --yes @deepseek-ai/dsh web\n"));
}

#[test]
fn launch_wsl_without_npx_is_refused() {
    let r = plan_launch(Platform::Windows, LaunchMode::Wsl, None);
    assert!(matches!(r, Err(LaunchError::WslNodeMissing)));
    let r = plan_launch(Platform::Windows, LaunchMode::Wsl, probe(true, b"__PROBE____END__"));
    assert!(matches!(r, Err(LaunchError::WslNodeMissing)));
    assert_eq!(
        LaunchError::WslNodeMissing.message(),
        "WSL 发行版内未检测到可用的 Node.js（npx），请先在发行版内安装 Node.js 后重试"
    );
}

#[test]
fn launch_elsewhere_through_sh() {
    for mode in [LaunchMode::Native, LaunchMode::Wsl] {
        let plan = plan_launch(Platform::Other, mode, None).unwrap();
        assert_eq!(plan.command.program, "sh");
        assert_eq!(args(&plan.command), vec!["-c", DSH_WEB_COMMAND]);
        assert_eq!(plan.command.stdin, StdioSetting::Null);
        assert!(!plan.command.hide_console);
        assert!(plan.stdin_script.is_none());
    }
}

#[test]
fn lookup_and_probe_commands() {
    let c = lookup_command("npx");
    assert_eq!(c.program, "cmd");
    assert_eq!(args(&c), vec!["/C", "where", "npx"]);
    assert_eq!((c.stdin, c.stdout, c.stderr), (StdioSetting::Null, StdioSetting::Null, StdioSetting::Null));
    assert!(c.hide_console);
    let p = wsl_probe_command();
    assert_eq!(p.program, "wsl");
    assert_eq!(args(&p), vec!["bash", "-il"]);
    assert_eq!((p.stdin, p.stdout, p.stderr), (StdioSetting::Piped, StdioSetting::Piped, StdioSetting::Null));
    assert!(p.hide_console);
}

#[test]
fn kill_wsl_service_on_windows() {
    let steps = kill_plan(Platform::Windows, LaunchMode::Wsl, 4242);
    assert_eq!(steps.len(), 3);
    match &steps[0] {
        KillStep::Run(c) => {
            assert_eq!(c.program, "wsl");
            assert_eq!(args(c), vec!["bash", "-lc", WSL_KILL_SCRIPT]);
            assert_eq!(c.stdin, StdioSetting::Null);
            assert!(c.hide_console);
        }
        _ => panic!("expected the WSL clean-up first"),
    }
    match &steps[1] {
        KillStep::Run(c) => {
            assert_eq!(c.program, "taskkill");
            assert_eq!(args(c), vec!["/F", "/T", "/PID", "4242"]);
            assert_eq!(c.stdout, StdioSetting::Unset);
            assert!(c.hide_console);
        }
        _ => panic!("expected taskkill"),
    }
    assert!(matches!(steps[2], KillStep::WaitChild));
}

#[test]
fn kill_native_service_on_windows() {
    let steps = kill_plan(Platform::Windows, LaunchMode::Native, 0);
    assert_eq!(steps.len(), 2);
    match &steps[0] {
        KillStep::Run(c) => assert_eq!(args(c), vec!["/F", "/T", "/PID", "0"]),
        _ => panic!("expected taskkill"),
    }
    assert!(matches!(steps[1], KillStep::WaitChild));
    let steps = kill_plan(Platform::Windows, LaunchMode::Native, u32::MAX);
    match &steps[0] {
        KillStep::Run(c) => assert_eq!(args(c)[3], "4294967295"),
        _ => panic!("expected taskkill"),
    }
}

#[test]
fn kill_elsewhere() {
    let steps = kill_plan(Platform::Other, LaunchMode::Wsl, 7);
    assert_eq!(steps.len(), 2);
    assert!(matches!(steps[0], KillStep::KillChild));
    assert!(matches!(steps[1], KillStep::WaitChild));
}

#[test]
fn service_address_matches_endpoint() {
    assert_eq!(SERVICE_URL, "http://127.0.0.1:3080");
    assert_eq!(SERVICE_URL, format!("http://{}:{}", SERVICE_HOST, SERVICE_PORT));
}

#[test]
fn windows_commands_never_show_a_console() {
    assert!(lookup_command("npx").hide_console);
    assert!(wsl_probe_command().hide_console);
    for mode in [LaunchMode::Native, LaunchMode::Wsl] {
        let plan = plan_launch(Platform::Windows, mode, probe(true, b"__PROBE__/bin/npx__END__")).unwrap();
        assert!(plan.command.hide_console);
        for step in kill_plan(Platform::Windows, mode, 1) {
            if let KillStep::Run(c) = step {
                assert!(c.hide_console);
            }
        }
    }
}

#[test]
fn probe_output_decoding_keeps_multibyte_text() {
    let out = "提示__PROBE__/home/用户/.volta/bin/npx__END__".as_bytes();
    let p = wsl_npx_path(&probe(true, out));
    assert_eq!(p.as_deref(), Some("/home/用户/.volta/bin/npx"));
}
