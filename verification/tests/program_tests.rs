use glres::{Bindable, Command, Program, Shader};

#[test]
fn shader_success_owns_handle_without_commands() {
    let (r, cmds) = Shader::new(5, true, String::new());
    let shader = r.unwrap();
    assert_eq!(shader.handle, 5);
    assert!(cmds.is_empty());
}

#[test]
fn shader_failure_reports_log_and_releases_once() {
    let (r, cmds) = Shader::new(5, false, String::from("syntax error"));
    assert_eq!(r.unwrap_err(), "syntax error");
    assert_eq!(cmds, vec![Command::DeleteShader { handle: 5 }]);
}

#[test]
fn shader_release_yields_one_delete() {
    let (r, _) = Shader::new(2, true, String::new());
    assert_eq!(r.unwrap().release(), Command::DeleteShader { handle: 2 });
}

#[test]
fn link_commands_attach_each_shader_then_link() {
    let s1 = Shader::new(10, true, String::new()).0.unwrap();
    let s2 = Shader::new(11, true, String::new()).0.unwrap();
    let cmds = Program::link_commands(42, &vec![s1, s2]);
    assert_eq!(
        cmds,
        vec![
            Command::AttachShader { program: 42, shader: 10 },
            Command::AttachShader { program: 42, shader: 11 },
            Command::LinkProgram { handle: 42 },
        ]
    );
}

#[test]
fn program_success_starts_with_empty_cache() {
    let (r, cmds) = Program::new(42, true, String::new());
    let program = r.unwrap();
    assert_eq!(program.handle, 42);
    assert!(program.uniform_cache.is_empty());
    assert!(cmds.is_empty());
}

#[test]
fn program_failure_reports_log_and_releases_once() {
    let (r, cmds) = Program::new(42, false, String::from("link failed"));
    assert_eq!(r.unwrap_err(), "link failed");
    assert_eq!(cmds, vec![Command::DeleteProgram { handle: 42 }]);
}

#[test]
fn uniform_lookup_misses_until_cached() {
    let mut program = Program::new(1, true, String::new()).0.unwrap();
    assert_eq!(program.get_uniform_location("mvp"), None);
    program.cache_uniform_location("mvp", 3);
    assert_eq!(program.get_uniform_location("mvp"), Some(3));
    // A second lookup of the same name returns the identical value and
    // needs no further device query: the cache alone answers it.
    assert_eq!(program.get_uniform_location("mvp"), Some(3));
}

#[test]
fn uniform_cache_keeps_other_entries() {
    let mut program = Program::new(1, true, String::new()).0.unwrap();
    program.cache_uniform_location("mvp", 3);
    program.cache_uniform_location("tint", 7);
    assert_eq!(program.get_uniform_location("mvp"), Some(3));
    assert_eq!(program.get_uniform_location("tint"), Some(7));
    assert_eq!(program.get_uniform_location("missing"), None);
}

#[test]
fn uniform_cache_records_not_found_locations() {
    // The device reports "not found" as a negative location; it is cached
    // all the same, so a misspelled name is only ever queried once.
    let mut program = Program::new(1, true, String::new()).0.unwrap();
    program.cache_uniform_location("typo", -1);
    assert_eq!(program.get_uniform_location("typo"), Some(-1));
}

#[test]
fn program_bind_and_unbind_commands() {
    let program = Program::new(6, true, String::new()).0.unwrap();
    assert_eq!(program.bind(), Command::UseProgram { handle: 6 });
    // Unbinding deliberately re-binds the null program.
    assert_eq!(program.unbind(), Command::UseProgram { handle: 0 });
}

#[test]
fn program_release_yields_one_delete() {
    let program = Program::new(6, true, String::new()).0.unwrap();
    assert_eq!(program.release(), Command::DeleteProgram { handle: 6 });
}
