//! Finding and starting programs.

use alleycat::launch::codex_resolver::{
    CodexCliVersion, HostKind, InstallDirs, POWERSHELL_RESOLVE_CODEX_BINARY, Place, Versioned,
    common_codex_candidates, is_codex_program_name, is_older, newest_codex_candidates_first,
    parse_codex_cli_version, path_program_candidates, places_to_look, program_candidates,
    program_file_names, resolve_latest_codex_binary, shell_candidate_lines, version_from_output,
};
use alleycat::launch::launch_environment::{
    DIRENV_FALLBACKS, LaunchEnvironment, LaunchEnvironmentPolicy, LaunchEnvironmentResolver,
    MISE_FALLBACKS, Provider, UserEnvironmentLauncher, absorb, apply_json_env, detect_user_shell,
    find_provider_places, is_asked, is_valid_env_key, launch_env, parse_env_output, path_dirs, prepare,
    probe, provider_places, resolve_program_for_launch, shell_env_args,
};
use alleycat::launch::launcher::{LocalLauncher, ProcessRole, ProcessSpec, StdioMode};
use alleycat::launch::paths::{
    file_name, has_extension, has_several_components, is_absolute, is_same_path, join_path,
};
use alleycat::text_map::TextMap;

fn s(t: &str) -> String {
    t.to_string()
}

#[test]
fn parses_codex_cli_version() {
    assert_eq!(
        parse_codex_cli_version("codex-cli 0.130.0"),
        Some(CodexCliVersion { major: 0, minor: 130, patch: 0 })
    );
    assert_eq!(
        parse_codex_cli_version("codex-cli v1.2.3-beta.1"),
        Some(CodexCliVersion { major: 1, minor: 2, patch: 3 })
    );
    assert_eq!(
        parse_codex_cli_version("codex-cli 0.130.0.dev-20260514"),
        Some(CodexCliVersion { major: 0, minor: 130, patch: 0 })
    );
    assert!(parse_codex_cli_version("codex-cli unknown").is_none());
}

#[test]
fn codex_cli_version_orders_by_numeric_components() {
    assert!(
        (CodexCliVersion { major: 0, minor: 130, patch: 0 })
            > (CodexCliVersion { major: 0, minor: 31, patch: 0 })
    );
}

#[test]
fn versions_compare_by_the_first_difference() {
    let v = |major, minor, patch| CodexCliVersion { major, minor, patch };
    assert!(is_older(v(0, 31, 0), v(0, 130, 0)));
    assert!(is_older(v(0, 9, 9), v(1, 0, 0)));
    assert!(is_older(v(1, 2, 3), v(1, 2, 4)));
    assert!(!is_older(v(1, 2, 3), v(1, 2, 3)));
    assert!(!is_older(v(2, 0, 0), v(1, 9, 9)));
}

#[test]
fn recognizes_windows_codex_program_names() {
    assert!(is_codex_program_name("codex", false));
    assert!(is_codex_program_name("codex.exe", false));
    assert!(is_codex_program_name("CODEX.CMD", false));
    assert!(!is_codex_program_name("pi", false));
}

#[test]
fn shell_candidate_lines_cover_common_posix_installs() {
    let shell = shell_candidate_lines().join("\n");
    assert!(shell.contains("_litter_consider_path_candidates codex codex"));
    assert!(shell.contains("packages/standalone/current/codex"));
    assert!(shell.contains("Codex.app/Contents/Resources/codex"));
    assert!(shell.contains(".local/bin/codex"));
    assert!(shell.contains("/opt/homebrew/bin/codex"));
    assert!(shell.contains("/usr/local/bin/codex"));
    assert!(shell.contains("/usr/bin/codex"));
}

#[test]
fn powershell_resolver_prefers_latest_version() {
    assert!(POWERSHELL_RESOLVE_CODEX_BINARY.contains("Get-Command codex -All"));
    assert!(POWERSHELL_RESOLVE_CODEX_BINARY.contains("packages\\standalone\\current\\codex.exe"));
    assert!(POWERSHELL_RESOLVE_CODEX_BINARY.contains("AppData\\Roaming\\npm\\codex.cmd"));
    assert!(POWERSHELL_RESOLVE_CODEX_BINARY.contains(r"(\d+)\.(\d+)\.(\d+)"));
    assert!(POWERSHELL_RESOLVE_CODEX_BINARY.contains("$bestVersion"));
    assert!(POWERSHELL_RESOLVE_CODEX_BINARY.contains("CompareTo"));
}

#[test]
fn newest_candidates_accept_dev_suffix_versions() {
    let old = Versioned {
        path: s("/old/codex"),
        version: version_from_output(true, b"codex-cli 0.31.0\n", b""),
    };
    let new = Versioned {
        path: s("/new/codex"),
        version: version_from_output(true, b"codex-cli 0.130.0.dev-20260514\n", b""),
    };
    let sorted = newest_codex_candidates_first(&vec![old, new]);
    assert_eq!(sorted, vec![s("/new/codex"), s("/old/codex")]);
}

#[test]
fn versions_are_read_from_either_stream_of_a_success() {
    let v = CodexCliVersion { major: 1, minor: 2, patch: 3 };
    assert_eq!(version_from_output(true, b"", b"codex 1.2.3"), Some(v));
    assert_eq!(version_from_output(false, b"codex 1.2.3", b""), None);
    assert_eq!(version_from_output(true, b"none", b"none"), None);
}

#[test]
fn the_newest_program_is_picked() {
    let of = |path: &str, minor: Option<u64>| Versioned {
        path: s(path),
        version: minor.map(|m| CodexCliVersion { major: 0, minor: m, patch: 0 }),
    };
    let all = vec![of("/a", Some(1)), of("/b", Some(9)), of("/c", None), of("/d", Some(4))];
    assert_eq!(resolve_latest_codex_binary(&all), Some(s("/b")));
    assert_eq!(resolve_latest_codex_binary(&vec![]), None);
    let sorted = newest_codex_candidates_first(&all);
    assert_eq!(sorted[0], "/b");
    assert_eq!(sorted[1], "/d");
    assert_eq!(sorted.len(), 4);
}

#[test]
fn candidates_come_from_the_path_and_the_usual_places() {
    let names = program_file_names("codex", Some(".EXE;;.CMD"));
    assert_eq!(names, vec![s("codex.EXE"), s("codex.CMD")]);
    assert_eq!(program_file_names("codex.exe", Some(".EXE")), vec![s("codex.exe")]);
    assert_eq!(program_file_names("codex", None), vec![s("codex")]);
    let on_path = path_program_candidates(&vec![s("/bin"), s("/usr/bin/")], &vec![s("codex")], false);
    assert_eq!(on_path, vec![s("/bin/codex"), s("/usr/bin/codex")]);
    let dirs = InstallDirs {
        home: Some(s("/home/me")),
        codex_home: None,
        pnpm_home: None,
        nvm_bin: None,
        volta_home: None,
        cargo_home: None,
    };
    let usual = common_codex_candidates(HostKind::Other, &dirs);
    assert!(usual.contains(&s("/home/me/.local/bin/codex")));
    assert!(usual.contains(&s("/usr/local/bin/codex")));
    let look = places_to_look("codex", &on_path, &usual, false);
    assert_eq!(look[0], "/bin/codex");
    let found = vec![
        Place { path: s("/bin/codex"), executable: false },
        Place { path: s("/usr/bin/codex"), executable: true },
        Place { path: s("/usr/bin/codex"), executable: true },
    ];
    assert_eq!(program_candidates("codex", &found, false), vec![s("/usr/bin/codex")]);
}

#[test]
fn shell_args_cover_common_shells() {
    assert_eq!(shell_env_args("/bin/zsh", false), vec![s("-lic"), s("env")]);
    assert_eq!(shell_env_args("/bin/bash", false), vec![s("-lic"), s("env")]);
    assert_eq!(shell_env_args("/usr/bin/fish", false), vec![s("-l"), s("-c"), s("env")]);
    assert_eq!(shell_env_args("/bin/sh", false), vec![s("-c"), s("env")]);
}

#[test]
fn other_shells_are_login_shells() {
    assert_eq!(shell_env_args("/opt/NU", false), vec![s("-lc"), s("env")]);
    assert_eq!(shell_env_args("/bin/DASH", false), vec![s("-c"), s("env")]);
}

#[test]
fn parses_only_valid_env_lines() {
    let parsed = parse_env_output(b"GOOD=value\nNOPE\n1BAD=x\nALSO_GOOD=a=b\n");
    assert_eq!(parsed.get("GOOD"), Some("value"));
    assert_eq!(parsed.get("ALSO_GOOD"), Some("a=b"));
    assert!(!parsed.contains_key("1BAD"));
}

#[test]
fn bytes_that_are_no_text_are_replaced() {
    let parsed = parse_env_output(b"NAME=a\xffb\nNAME2=x");
    assert_eq!(parsed.get("NAME"), Some("a\u{fffd}b"));
    assert_eq!(parsed.get("NAME2"), Some("x"));
}

#[test]
fn json_provider_sets_and_removes_values() {
    let mut env = LaunchEnvironment::new();
    env.set("REMOVE_ME", "old");
    apply_json_env(
        br#"{"SET_ME":"new","REMOVE_ME":null,"NESTED":{"ignored":true}}"#,
        &mut env,
    );
    assert_eq!(env.get("SET_ME"), Some("new"));
    assert!(!env.contains_key("REMOVE_ME"));
    assert!(!env.contains_key("NESTED"));
}

#[test]
fn providers_that_say_nonsense_change_nothing() {
    let mut env = LaunchEnvironment::new();
    env.set("A", "1");
    apply_json_env(b"not json", &mut env);
    apply_json_env(b"[1,2]", &mut env);
    apply_json_env(b"{\"A\":\"\xff\"}", &mut env);
    apply_json_env(b"7", &mut env);
    assert_eq!(env.get("A"), Some("1"));
    assert_eq!(env.into_pairs().len(), 1);
}

#[test]
fn env_keys_are_identifiers() {
    assert!(is_valid_env_key("_A1"));
    assert!(is_valid_env_key("path"));
    assert!(!is_valid_env_key(""));
    assert!(!is_valid_env_key("1A"));
    assert!(!is_valid_env_key("A-B"));
    assert!(!is_valid_env_key("\u{e4}"));
}

#[test]
fn the_shell_is_named_or_found() {
    let usual = vec![(s("/bin/bash"), false), (s("/bin/zsh"), true), (s("/bin/sh"), true)];
    assert_eq!(detect_user_shell(Some(s("/bin/fish")), &usual), Some(s("/bin/fish")));
    assert_eq!(detect_user_shell(Some(s("")), &usual), Some(s("/bin/zsh")));
    assert_eq!(detect_user_shell(None, &usual), Some(s("/bin/zsh")));
    assert_eq!(detect_user_shell(None, &vec![]), None);
}

#[test]
fn find_on_path_skips_non_executable_files() {
    let mut env = LaunchEnvironment::new();
    env.set("PATH", "/first:/second");
    let places = env.places_on_path("agent", false);
    assert_eq!(places, vec![s("/first/agent"), s("/second/agent")]);
    assert_eq!(
        env.find_on_path("agent", false, &vec![false, true]),
        Some(s("/second/agent"))
    );
    assert_eq!(env.find_on_path("agent", false, &vec![false, false]), None);
    assert_eq!(LaunchEnvironment::new().find_on_path("agent", false, &vec![true]), None);
}

#[test]
fn windows_paths_are_split_outside_of_quotes() {
    assert_eq!(path_dirs("C:/a;\"C:/b;c\";D:/", true), vec![s("C:/a"), s("C:/b;c"), s("D:/")]);
    let mut env = LaunchEnvironment::new();
    env.set("PATH", "C:/a");
    assert_eq!(
        env.places_on_path("pi", true),
        vec![s(r"C:/a\pi"), s(r"C:/a\pi.exe"), s(r"C:/a\pi.cmd"), s(r"C:/a\pi.bat")]
    );
}

#[test]
fn find_provider_on_path_uses_home_relative_fallback() {
    let mut env = LaunchEnvironment::new();
    env.set("PATH", "/usr/bin:/bin");
    env.set("HOME", "/home/me");
    let places = find_provider_places("mise", &env, false, &[".local/bin/mise"]);
    assert_eq!(
        places,
        vec![s("/usr/bin/mise"), s("/bin/mise"), s("/home/me/.local/bin/mise")]
    );
}

#[test]
fn fallbacks_without_a_home_start_at_the_root() {
    assert_eq!(
        provider_places(&DIRENV_FALLBACKS, None, false),
        vec![s("/opt/homebrew/bin/direnv"), s("/usr/local/bin/direnv"), s("/usr/bin/direnv")]
    );
    assert_eq!(provider_places(&MISE_FALLBACKS, Some("/h"), false)[0], "/h/.local/bin/mise");
    assert_eq!(provider_places(&MISE_FALLBACKS, Some("/h"), false).len(), 6);
}

fn bare_policy() -> LaunchEnvironmentPolicy {
    LaunchEnvironmentPolicy {
        load_user_shell: false,
        load_mise: false,
        load_direnv: false,
        ..LaunchEnvironmentPolicy::default()
    }
}

#[test]
fn user_environment_launcher_requests_clean_env() {
    let launcher = UserEnvironmentLauncher::with_policy(bare_policy());
    let mut spec = ProcessSpec::new("agent");
    spec.env = vec![(s("EXPLICIT_ENV"), s("wins"))];
    let mut env = LaunchEnvironment::new();
    env.set("EXPLICIT_ENV", "loses");
    env.set("OTHER", "stays");
    assert_eq!(launcher.names_to_find("agent", false), vec![s("agent")]);
    let ready = prepare(spec, &env, &vec![None]);
    assert!(ready.env_clear);
    assert!(ready.env.iter().any(|(k, v)| k == "EXPLICIT_ENV" && v == "wins"));
    assert!(ready.env.iter().any(|(k, v)| k == "OTHER" && v == "stays"));
    assert_eq!(ready.env.len(), 2);
    assert_eq!(ready.program, "agent");
}

#[test]
fn launcher_resolves_program_after_explicit_path_and_aliases() {
    let mut aliases: TextMap<Vec<String>> = TextMap::new();
    aliases.insert("pi", vec![s("pi-coding-agent")]);
    let launcher =
        UserEnvironmentLauncher::with_policy(bare_policy()).with_program_aliases(aliases);
    let mut spec = ProcessSpec::new("pi");
    spec.env = vec![(s("PATH"), s("/temp"))];
    let env = launch_env(&LaunchEnvironment::new(), &spec);
    let names = launcher.names_to_find("pi", false);
    assert_eq!(names, vec![s("pi"), s("pi-coding-agent")]);
    let found: Vec<Option<String>> = names
        .iter()
        .map(|n| env.find_on_path(n, false, &vec![n == "pi-coding-agent"]))
        .collect();
    let ready = prepare(spec, &env, &found);
    assert_eq!(ready.program, "/temp/pi-coding-agent");
    assert!(ready.env_clear);
}

#[test]
fn paths_are_not_looked_up() {
    let launcher = UserEnvironmentLauncher::with_policy(bare_policy());
    assert!(launcher.names_to_find("/bin/sh", false).is_empty());
    assert_eq!(resolve_program_for_launch("/bin/sh", &vec![]), "/bin/sh");
    assert_eq!(resolve_program_for_launch("x", &vec![None, Some(s("/y"))]), "/y");
}

#[test]
fn environments_are_kept_for_a_while() {
    let policy = LaunchEnvironmentPolicy { cache_ttl_ms: 100, ..bare_policy() };
    let mut r = LaunchEnvironmentResolver::new(policy);
    assert!(r.resolve(Some("/p"), false, 0).is_none());
    let mut env = LaunchEnvironment::new();
    env.set("A", "1");
    r.store(Some("/p"), false, env, 1_000);
    assert_eq!(r.resolve(Some("/p"), false, 1_100).unwrap().get("A"), Some("1"));
    assert!(r.resolve(Some("/p"), false, 1_101).is_none());
    assert!(r.resolve(None, false, 1_000).is_none());
    assert!(r.resolve(Some("/q"), false, 1_000).is_none());
    r.store(None, false, LaunchEnvironment::new(), 5);
    assert!(r.resolve(None, false, 6).is_some());
    assert_eq!(r.policy().cache_ttl_ms, 100);
}

#[test]
fn one_directory_has_one_environment() {
    let mut r = LaunchEnvironmentResolver::new(bare_policy());
    let mut env = LaunchEnvironment::new();
    env.set("A", "1");
    r.store(Some("/p//q/"), false, env, 0);
    assert_eq!(r.resolve(Some("/p/./q"), false, 0).unwrap().get("A"), Some("1"));
    assert!(r.resolve(Some("/p/q/.."), false, 0).is_none());
    let mut env = LaunchEnvironment::new();
    env.set("A", "2");
    r.store(Some("/p/q"), false, env, 0);
    assert_eq!(r.resolve(Some("/p//q"), false, 0).unwrap().get("A"), Some("2"));
    r.store(Some("/x"), false, LaunchEnvironment::new(), 0);
    assert_eq!(r.resolve(Some("/p/q"), false, 0).unwrap().get("A"), Some("2"));
}

#[test]
fn a_path_is_a_candidate_once() {
    let place = |path: &str| Place { path: s(path), executable: true };
    let found = vec![place("/usr//bin/codex"), place("/usr/bin/codex"), place("/usr/bin/codex2")];
    assert_eq!(
        program_candidates("codex", &found, false),
        vec![s("/usr//bin/codex"), s("/usr/bin/codex2")]
    );
}

#[test]
fn paths_are_the_same_by_their_components() {
    for (a, b) in [("/a//b", "/a/b"), ("a/./b", "a/b"), ("a/b/", "a/b"), ("//", "/"), ("./", ".")] {
        assert!(is_same_path(a, b, false), "{a} {b}");
    }
    for (a, b) in [("/a", "a"), ("./a", "a"), ("a/..", "."), ("a", "A"), ("", "."), (r"a\b", "a/b")] {
        assert!(!is_same_path(a, b, false), "{a} {b}");
    }
    assert!(is_same_path(r"c:\a\b", "C:/a//b", true));
    assert!(!is_same_path(r"C:a", r"C:\a", true));
    assert!(is_same_path("//server/share/a", r"\\server\share\a", true));
    assert!(!is_same_path(r"\\?\C:\a", r"C:\a", true));
    assert!(!is_same_path(r"\\?\C:\.\a", r"\\?\C:\a", true));
}

#[test]
fn verbatim_paths_are_taken_as_they_are() {
    assert_eq!(file_name(r"\\?\UNC\server\share", true), None);
    assert_eq!(file_name(r"\\?\UNC\server\share\a", true), Some(s("a")));
    assert_eq!(file_name(r"\\?\C:\a/b", true), Some(s("a/b")));
    assert_eq!(file_name(r"\\?\pictures", true), None);
    assert_eq!(file_name(r"\\?\C:\a\.", true), None);
    assert_eq!(file_name(r"\\.\COM42", true), None);
    assert_eq!(file_name(r"\\.\pipe\x", true), Some(s("x")));
    assert!(is_absolute(r"\\?\C:", true));
    assert!(is_absolute(r"\\.\COM42", true));
    assert!(!has_several_components(r"\\?\C:", true));
    assert!(has_several_components(r"\\?\C:\", true));
    assert_eq!(join_path(r"\\?\C:\a", r"..\b\.\c", true), r"\\?\C:\b\c");
    assert_eq!(join_path(r"\\?\C:\a", r"\b", true), r"\\?\C:\b");
    assert_eq!(join_path(r"\\?\C:", "b", true), r"\\?\C:\b");
    assert_eq!(join_path(r"\\?\C:\a", "b/c", true), r"\\?\C:\a\b\c");
    assert_eq!(join_path(r"\\?\UNC\server\share", "a", true), r"\\?\UNC\server\share\a");
}

#[test]
fn kept_environments_reach_the_launcher() {
    let mut launcher = UserEnvironmentLauncher::with_policy(LaunchEnvironmentPolicy::default());
    launcher.keep(None, false, LaunchEnvironment::new(), 7);
    assert!(launcher.resolver().resolve(None, false, 30_007).is_some());
    assert!(launcher.resolver().resolve(None, false, 30_008).is_none());
}

#[test]
fn providers_are_asked_in_their_own_words() {
    let mut env = LaunchEnvironment::new();
    env.set("PATH", "/bin");
    let spec = probe(Provider::Mise, "/bin/mise", Some("/proj"), true, false, &env);
    assert_eq!(spec.args, vec![s("env"), s("--json"), s("-C"), s("/proj")]);
    assert_eq!(spec.cwd, Some(s("/proj")));
    assert!(spec.env_clear);
    assert_eq!(spec.env, vec![(s("PATH"), s("/bin"))]);
    assert_eq!(spec.stdin, StdioMode::Null);
    let spec = probe(Provider::Mise, "/bin/mise", Some("/gone"), false, false, &env);
    assert_eq!(spec.cwd, None);
    assert_eq!(spec.args.len(), 4);
    let spec = probe(Provider::Direnv, "/bin/direnv", None, false, false, &env);
    assert_eq!(spec.args, vec![s("export"), s("json")]);
    let spec = probe(Provider::UserShell, "/bin/zsh", None, false, false, &env);
    assert_eq!(spec.args, vec![s("-lic"), s("env")]);
    let p = bare_policy();
    assert!(!is_asked(&p, Provider::Mise));
    assert!(is_asked(&LaunchEnvironmentPolicy::default(), Provider::Direnv));
}

#[test]
fn a_shell_that_fails_is_still_heard() {
    let mut env = LaunchEnvironment::new();
    absorb(&mut env, Provider::UserShell, false, b"A=1\n");
    assert_eq!(env.get("A"), Some("1"));
    absorb(&mut env, Provider::Mise, false, b"{\"A\":\"2\"}");
    assert_eq!(env.get("A"), Some("1"));
    absorb(&mut env, Provider::Mise, true, b"{\"A\":\"2\"}");
    assert_eq!(env.get("A"), Some("2"));
    absorb(&mut env, Provider::Direnv, true, b"{\"A\":null}");
    assert_eq!(env.get("A"), None);
}

#[test]
fn the_default_policy_asks_everyone() {
    let p = LaunchEnvironmentPolicy::default();
    assert!(p.load_user_shell && p.load_mise && p.load_direnv);
    assert_eq!(p.provider_timeout_ms, 8_000);
    assert_eq!(p.cache_ttl_ms, 30_000);
}

#[test]
fn processes_start_as_piped_agents() {
    let spec = ProcessSpec::new("x");
    assert_eq!(spec.role, ProcessRole::Agent);
    assert_eq!(spec.stdin, StdioMode::Piped);
    assert!(!spec.env_clear);
    assert_eq!(LocalLauncher::new(), LocalLauncher::default());
}

#[test]
fn a_path_is_meant_as_it_is() {
    for program in ["/", "/usr/bin/codex", "./codex", "bin/codex"] {
        assert_eq!(program_candidates(program, &vec![], false), vec![s(program)]);
        assert!(places_to_look(program, &vec![s("/x")], &vec![s("/y")], false).is_empty());
    }
    assert!(program_candidates("codex", &vec![], false).is_empty());
    assert_eq!(program_candidates(r"C:\codex.exe", &vec![], true), vec![s(r"C:\codex.exe")]);
    assert!(program_candidates(r"bin\codex", &vec![], false).is_empty());
    assert_eq!(program_candidates(r"bin\codex", &vec![], true), vec![s(r"bin\codex")]);
}

#[test]
fn windows_paths_have_drives_and_shares() {
    assert!(is_absolute(r"C:\a", true));
    assert!(is_absolute(r"c:/a", true));
    assert!(is_absolute(r"\\server\share", true));
    assert!(!is_absolute(r"C:a", true));
    assert!(!is_absolute(r"\a", true));
    assert!(!is_absolute(r"C:\a", false));
    assert!(has_several_components(r"a\b", true));
    assert!(!has_several_components(r"a\b", false));
    assert!(has_several_components(r"C:codex", true));
    assert!(has_several_components(r"\\server\share", true));
    assert!(!has_several_components(r"C:", true));
    assert!(!has_several_components(r"codex", true));
    assert!(has_several_components(r".\codex", true));
    assert_eq!(file_name(r"C:\Tools\fish.exe", true), Some(s("fish.exe")));
    assert_eq!(file_name(r"C:\", true), None);
    assert_eq!(file_name(r"\\server\share\a", true), Some(s("a")));
    assert_eq!(file_name(r"\\server\share", true), None);
    assert_eq!(join_path(r"C:\a", "b", true), r"C:\a\b");
    assert_eq!(join_path(r"C:\a\", "b", true), r"C:\a\b");
    assert_eq!(join_path("C:/a/", "b", true), "C:/a/b");
    assert_eq!(join_path("C:", "b", true), "C:b");
    assert_eq!(join_path(r"C:\a", r"\b", true), r"C:\b");
    assert_eq!(join_path(r"C:\a", r"D:b", true), "D:b");
    assert_eq!(join_path(r"\\server\share", "b", true), r"\\server\share\b");
    assert!(is_codex_program_name(r"C:\bin\CODEX.EXE", true));
    assert!(!is_codex_program_name(r"C:\bin\CODEX.EXE", false));
    assert!(has_extension("codex.exe", true));
    assert!(!has_extension(".codex", true));
    assert!(!has_extension("codex", true));
    assert_eq!(shell_env_args(r"C:\msys\bash.exe", true), vec![s("-lic"), s("env")]);
    let mut env = LaunchEnvironment::new();
    env.set("PATH", r"C:\bin");
    assert_eq!(env.places_on_path("pi", true)[1], r"C:\bin\pi.exe");
}

#[test]
fn a_process_is_told_each_variable_once() {
    let mut spec = ProcessSpec::new("x");
    spec.env = vec![(s("A"), s("1")), (s("B"), s("2")), (s("A"), s("3"))];
    let mut env = LaunchEnvironment::new();
    env.set("A", "0");
    env.set("C", "4");
    let mut ready = prepare(spec, &env, &vec![]).env;
    ready.sort();
    assert_eq!(ready, vec![(s("A"), s("3")), (s("B"), s("2")), (s("C"), s("4"))]);
}

#[test]
fn paths_are_taken_apart_and_put_together() {
    assert!(is_absolute("/a", false));
    assert!(!is_absolute("a/b", false));
    assert!(has_several_components("./a", false));
    assert!(has_several_components("a/b", false));
    assert!(!has_several_components("a", false));
    assert_eq!(file_name("/usr/bin/fish", false), Some(s("fish")));
    assert_eq!(file_name("/usr/..", false), None);
    assert_eq!(join_path("/a/", "b", false), "/a/b");
    assert_eq!(join_path("/a", "/b", false), "/b");
    assert_eq!(join_path("", "b", false), "b");
}

#[test]
fn launcher_applies_explicit_env_last() {
    let mut spec = ProcessSpec::new("/bin/sh");
    spec.args = vec![s("-c"), s("printf %s \"$ALLEY_TEST_ENV\"")];
    spec.env = vec![(s("ALLEY_TEST_ENV"), s("explicit"))];
    let mut env = LaunchEnvironment::new();
    env.set("ALLEY_TEST_ENV", "inherited");
    let ready = prepare(spec, &env, &vec![]);
    let value = ready.env.iter().find(|(k, _)| k == "ALLEY_TEST_ENV").map(|(_, v)| v.as_str());
    assert_eq!(value, Some("explicit"));
    assert_eq!(ready.args[1], "printf %s \"$ALLEY_TEST_ENV\"");
}
