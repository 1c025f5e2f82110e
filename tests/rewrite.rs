use zigcc::args::{child_working_dir, placeholder_action, rewrite_args, ArgAction};
use zigcc::launch::{command_line, plan_launch, Host, Invocation};
use zigcc::tempfile::temp_file_names;

fn strs(v: &[&str]) -> Vec<String> {
    v.iter().map(|s| s.to_string()).collect()
}

#[test]
fn compile_command_passes_through() {
    let defaults = strs(&["-target", "x86_64-linux"]);
    let caller = strs(&["-c", "foo.c", "-o", "foo.o"]);
    let src = "/tmp/zig-cc-aaaaa.cpp".to_string();
    let obj = "/tmp/zig-cc-aaaaa.obj".to_string();
    let args = rewrite_args("cc", &defaults, &caller, &src, &obj);
    assert_eq!(args, strs(&["-target", "x86_64-linux", "-c", "foo.c", "-o", "foo.o"]));
    let cmd = command_line("zig", "cc", &args);
    assert_eq!(cmd, "zig cc -target x86_64-linux -c foo.c -o foo.o");
}

#[test]
fn macro_dump_placeholder_becomes_source_path() {
    let caller = strs(&["-E", "-dM", "-"]);
    let src = "/tmp/zig-cc-bbbbb.cpp".to_string();
    let obj = "/tmp/zig-cc-bbbbb.obj".to_string();
    let args = rewrite_args("cc", &Vec::new(), &caller, &src, &obj);
    assert_eq!(args, strs(&["-E", "-dM", "/tmp/zig-cc-bbbbb.cpp"]));
    assert!(!args.contains(&"-c".to_string()));
    assert!(!args.contains(&"-o".to_string()));
}

#[test]
fn probe_placeholder_compiles_to_object() {
    let caller = strs(&["-x", "c", "-"]);
    let src = "s.cpp".to_string();
    let obj = "o.obj".to_string();
    let args = rewrite_args("c++", &strs(&["-g"]), &caller, &src, &obj);
    assert_eq!(args, strs(&["-g", "-x", "c", "-c", "s.cpp", "-o", "o.obj"]));
}

#[test]
fn null_device_placeholder_is_rewritten() {
    let caller = strs(&["-v", "nul"]);
    let args = rewrite_args("cc", &Vec::new(), &caller, &"s".to_string(), &"o".to_string());
    assert_eq!(args, strs(&["-v", "-c", "s", "-o", "o"]));
}

#[test]
fn macro_dump_after_placeholder_does_not_count() {
    let caller = strs(&["-", "-dM"]);
    let args = rewrite_args("cc", &Vec::new(), &caller, &"s".to_string(), &"o".to_string());
    assert_eq!(args, strs(&["-c", "s", "-o", "o", "-dM"]));
}

#[test]
fn macro_dump_in_defaults_counts() {
    let args = rewrite_args("cc", &strs(&["-dM"]), &strs(&["-"]), &"s".to_string(), &"o".to_string());
    assert_eq!(args, strs(&["-dM", "s"]));
}

#[test]
fn other_tools_keep_placeholders() {
    let args = rewrite_args("ranlib", &strs(&["-D"]), &strs(&["-", "nul"]), &"s".to_string(), &"o".to_string());
    assert_eq!(args, strs(&["-D", "-", "nul"]));
}

#[test]
fn rule_table_actions() {
    assert_eq!(placeholder_action(&strs(&["-dM"]), "-"), ArgAction::SourceFile);
    assert_eq!(placeholder_action(&strs(&["-E"]), "nul"), ArgAction::CompileToObject);
    assert_eq!(placeholder_action(&strs(&["-dM"]), "-x"), ArgAction::Forward);
}

#[test]
fn search_dirs_probe_runs_in_install_dir() {
    let cwd = child_working_dir(
        &Vec::new(),
        &strs(&["-print-search-dirs"]),
        &"/home/me/project".to_string(),
        &"/opt/wrapper".to_string(),
    );
    assert_eq!(cwd, "/opt/wrapper");
}

#[test]
fn version_probe_in_defaults_runs_in_install_dir() {
    let cwd = child_working_dir(&strs(&["-version"]), &Vec::new(), &"/p".to_string(), &"/i".to_string());
    assert_eq!(cwd, "/i");
}

#[test]
fn ide_probe_directory_runs_in_install_dir() {
    let cwd = child_working_dir(
        &Vec::new(),
        &strs(&["-E"]),
        &"/tmp/QtCreator-abc/bin".to_string(),
        &"/i".to_string(),
    );
    assert_eq!(cwd, "/i");
    let cwd = child_working_dir(&Vec::new(), &Vec::new(), &"/tmp/QtCreator-abc".to_string(), &"/i".to_string());
    assert_eq!(cwd, "/tmp/QtCreator-abc");
}

#[test]
fn ordinary_build_keeps_caller_dir() {
    let cwd = child_working_dir(&Vec::new(), &strs(&["-c", "a.c"]), &"/home/me/bin".to_string(), &"/i".to_string());
    assert_eq!(cwd, "/home/me/bin");
}

#[test]
fn generated_names_have_their_shape() {
    let (src, obj) = temp_file_names();
    assert_eq!(src.len(), 16);
    assert_eq!(obj.len(), 16);
    assert!(src.starts_with("zig-cc-") && src.ends_with(".cpp"));
    assert!(obj.starts_with("zig-cc-") && obj.ends_with(".obj"));
    assert!(src[7..12].chars().all(|c| c.is_ascii_alphanumeric()));
    assert!(obj[7..12].chars().all(|c| c.is_ascii_alphanumeric()));
    assert_ne!(src, obj);
}

#[test]
fn plan_puts_toolchain_dir_first_on_path() {
    let inv = Invocation {
        zig: "/opt/zig/zig".to_string(),
        tool: "cc".to_string(),
        defaults: strs(&["-target", "x86_64-linux"]),
        caller: strs(&["-c", "foo.c", "-o", "foo.o"]),
    };
    let host = Host {
        install_dir: "/opt/wrapper".to_string(),
        real_cwd: "/home/me/project".to_string(),
        inherited_path: "/usr/bin:/bin".to_string(),
        path_separator: ":".to_string(),
        zig_dir: "/opt/zig".to_string(),
    };
    let plan = plan_launch(&inv, &host, &"s".to_string(), &"o".to_string());
    assert_eq!(plan.path, "/opt/zig:/usr/bin:/bin");
    assert_eq!(plan.cwd, "/home/me/project");
    assert_eq!(plan.command, "/opt/zig/zig cc -target x86_64-linux -c foo.c -o foo.o");
    assert_eq!(plan.args, strs(&["-target", "x86_64-linux", "-c", "foo.c", "-o", "foo.o"]));
}

#[test]
fn bin_must_be_a_whole_path_segment() {
    let cwd = child_working_dir(&Vec::new(), &Vec::new(), &"/home/robin/QtCreator-x".to_string(), &"/i".to_string());
    assert_eq!(cwd, "/home/robin/QtCreator-x");
    let cwd = child_working_dir(&Vec::new(), &Vec::new(), &"/QtCreator/robin".to_string(), &"/i".to_string());
    assert_eq!(cwd, "/QtCreator/robin");
    let cwd = child_working_dir(&Vec::new(), &Vec::new(), &"C:\\QtCreator\\bin\\x".to_string(), &"/i".to_string());
    assert_eq!(cwd, "/i");
    let cwd = child_working_dir(&Vec::new(), &Vec::new(), &"bin/QtCreator".to_string(), &"/i".to_string());
    assert_eq!(cwd, "/i");
}
