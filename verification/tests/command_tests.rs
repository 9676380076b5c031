use nextjs_setup::command::{
    deploy_command, deploy_list_command, remote_create_command, remote_view_command,
    scaffold_command, version_control_commands,
};

#[test]
fn scaffold_command_line_is_fixed() {
    let c = scaffold_command();
    assert_eq!(c.program, "npx");
    assert_eq!(c.args, vec!["create-next-app@latest", "./"]);
}

#[test]
fn version_control_runs_init_add_commit_in_order() {
    let cs = version_control_commands();
    assert_eq!(cs.len(), 3);
    assert_eq!(cs[0].program, "git");
    assert_eq!(cs[0].args, vec!["init"]);
    assert_eq!(cs[1].args, vec!["add", "."]);
    assert_eq!(cs[2].args, vec!["commit", "-m", "Initial Next.js setup"]);
}

#[test]
fn remote_view_queries_by_project_name() {
    let c = remote_view_command(&"my-app".to_string());
    assert_eq!(c.program, "gh");
    assert_eq!(c.args, vec!["repo", "view", "my-app"]);
}

#[test]
fn remote_create_carries_visibility_source_and_push() {
    let public = remote_create_command(&"my-app".to_string(), true);
    assert_eq!(public.program, "gh");
    assert_eq!(
        public.args,
        vec!["repo", "create", "my-app", "--public", "--source=.", "--remote=origin", "--push"]
    );
    let private = remote_create_command(&"my-app".to_string(), false);
    assert_eq!(private.args[3], "--private");
}

#[test]
fn deploy_command_lines_are_fixed() {
    let ls = deploy_list_command();
    assert_eq!(ls.program, "vercel");
    assert_eq!(ls.args, vec!["ls"]);
    let d = deploy_command();
    assert_eq!(d.program, "vercel");
    assert_eq!(d.args, vec!["--yes", "--prod", "--confirm"]);
}
