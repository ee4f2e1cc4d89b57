use pod_roster::deep_link::{resolve_handler_exec, SCHEME};
use pod_roster::desktop::{desktop_entry, desktop_file_name, mime_file_name, mime_info, mime_type_line, pack_type_list, socket_file_name};

#[test]
fn it_declares_the_scheme_handler_mime_type_from_the_scheme_constant() {
    let entry = desktop_entry("/opt/pod/pod");

    assert!(entry.contains(&format!("MimeType=x-scheme-handler/{SCHEME};")));
    assert!(entry.contains("MimeType=x-scheme-handler/eveauth-pod;"));
}

#[test]
fn it_generates_identical_content_for_the_same_binary() {
    assert_eq!(desktop_entry("/opt/pod/pod"), desktop_entry("/opt/pod/pod"));
}

#[test]
fn it_uses_an_absolute_exec_with_a_url_placeholder() {
    let entry = desktop_entry("/opt/pod/pod");

    assert!(entry.contains("Exec=/opt/pod/pod %u"));
}

#[test]
fn the_desktop_entry_lists_its_keys_in_order() {
    let entry = desktop_entry("/opt/pod/pod");

    assert_eq!(
        entry,
        "[Desktop Entry]\nType=Application\nName=Pod\nExec=/opt/pod/pod %u\nNoDisplay=true\nStartupNotify=false\n\
         MimeType=x-scheme-handler/eveauth-pod;application/x-pod-budget-rules;application/x-pod-facility-intel;application/x-pod-skill-plan;\n"
    );
}

#[test]
fn it_keeps_the_scheme_handler_and_appends_the_three_pack_mime_types() {
    let line = mime_type_line();

    assert!(line.contains(&format!("MimeType=x-scheme-handler/{SCHEME};")));
    assert!(line.contains("application/x-pod-budget-rules;"));
    assert!(line.contains("application/x-pod-facility-intel;"));
    assert!(line.contains("application/x-pod-skill-plan;"));
}

#[test]
fn it_defines_a_glob_and_comment_for_each_pack_type() {
    let xml = mime_info();

    for pack in pack_type_list() {
        assert!(xml.contains(&format!("<mime-type type=\"{}\">", pack.mime_type)));
        assert!(xml.contains(&format!("<comment>{}</comment>", pack.comment)));
        assert!(xml.contains(&format!("<glob pattern=\"*.{}\"/>", pack.extension)));
    }
}

#[test]
fn it_wraps_the_definitions_in_a_shared_mime_info_root() {
    let xml = mime_info();

    assert!(xml.starts_with("<?xml version=\"1.0\" encoding=\"UTF-8\"?>"));
    assert!(xml.contains("<mime-info xmlns=\"http://www.freedesktop.org/standards/shared-mime-info\">"));
    assert!(xml.trim_end().ends_with("</mime-info>"));
}

#[test]
fn it_generates_identical_content_across_calls() {
    assert_eq!(mime_info(), mime_info());
}

#[test]
fn it_falls_back_to_current_exe_when_appimage_is_empty() {
    assert_eq!(resolve_handler_exec(Some(String::new())), None);
}

#[test]
fn it_falls_back_to_current_exe_when_appimage_is_unset() {
    assert_eq!(resolve_handler_exec(None), None);
}

#[test]
fn it_prefers_the_appimage_path_when_set() {
    let resolved = resolve_handler_exec(Some("/home/me/Pod.AppImage".to_owned()));

    assert_eq!(resolved, Some("/home/me/Pod.AppImage".to_owned()));
}

#[test]
fn the_integration_files_are_named_by_the_app_id() {
    assert_eq!(desktop_file_name(), "dev.aaronmallen.pod.desktop");
    assert_eq!(mime_file_name(), "dev.aaronmallen.pod.xml");
}

#[test]
fn the_socket_name_hashes_the_data_dir() {
    let name = socket_file_name("/home/me/.local/share/pod");

    assert!(name.starts_with("pod-deeplink-"));
    assert!(name.ends_with(".sock"));
    assert_eq!(name.len(), "pod-deeplink-".len() + 16 + ".sock".len());
    assert_eq!(name, socket_file_name("/home/me/.local/share/pod"));
    assert_ne!(name, socket_file_name("/home/other/.local/share/pod"));
    // SHA-256 of the empty string starts e3b0c44298fc1c14.
    assert_eq!(socket_file_name(""), "pod-deeplink-e3b0c44298fc1c14.sock");
}
