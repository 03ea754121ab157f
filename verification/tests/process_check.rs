use xiaohai::process::{file_name, is_process_running_by_exe, process_name_listed,
    str_eq_ignore_case};

#[test]
fn file_name_takes_the_last_component() {
    assert_eq!(file_name(&"C:/Apps/Bundle/assistant.exe".to_string()), "assistant.exe");
    assert_eq!(file_name(&"C:\\Apps\\assistant.exe".to_string()), "assistant.exe");
    assert_eq!(file_name(&"assistant.exe".to_string()), "assistant.exe");
    assert_eq!(file_name(&"C:/Apps/".to_string()), "");
    assert_eq!(file_name(&"".to_string()), "");
}

#[test]
fn case_insensitive_name_comparison() {
    assert!(str_eq_ignore_case(&"Assistant.EXE".to_string(), &"assistant.exe".to_string()));
    assert!(!str_eq_ignore_case(&"assistant.exe".to_string(), &"agent.exe".to_string()));
    assert!(!str_eq_ignore_case(&"abc".to_string(), &"abcd".to_string()));
}

#[test]
fn process_list_lookup_matches_by_file_name() {
    let names = vec!["Init".to_string(), "ASSISTANT.EXE".to_string(), "shell".to_string()];
    assert!(process_name_listed(&names, &"C:/Apps/Bundle/assistant.exe".to_string()));
    assert!(!process_name_listed(&names, &"C:/Apps/Bundle/agent.exe".to_string()));
    assert!(!process_name_listed(&names, &"C:/Apps/Bundle/".to_string()));
}

#[test]
fn live_process_query_yields_an_answer() {
    let r = is_process_running_by_exe(&"definitely-not-running-here.exe".to_string());
    assert_eq!(r, Ok(false));
}
