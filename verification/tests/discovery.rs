use plugin_host::discovery::has_module_extension;

#[test]
fn clap_files_are_modules() {
    assert!(has_module_extension(b"synth.clap"));
    assert!(has_module_extension(b"a.clap"));
    assert!(has_module_extension(b"my.plugin.v2.clap"));
    assert!(has_module_extension(b"..clap"));
}

#[test]
fn other_extensions_are_not_modules() {
    assert!(!has_module_extension(b"synth.vst3"));
    assert!(!has_module_extension(b"synth.clap.bak"));
    assert!(!has_module_extension(b"synth.CLAP"));
    assert!(!has_module_extension(b"synth.clap "));
    assert!(!has_module_extension(b"synthclap"));
    assert!(!has_module_extension(b"synth_clap"));
}

#[test]
fn hidden_file_named_clap_has_no_extension() {
    assert!(!has_module_extension(b".clap"));
    assert!(!has_module_extension(b"clap"));
    assert!(!has_module_extension(b""));
    assert!(!has_module_extension(b"."));
    assert!(!has_module_extension(b".."));
}
