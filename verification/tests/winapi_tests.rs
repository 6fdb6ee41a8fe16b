use win32::winapi::kernel32;
use win32::winapi::{apiset, ImportSymbol, State};

#[test]
fn apiset_maps_crt_runtime_to_ucrtbase() {
    assert_eq!(apiset("api-ms-win-crt-runtime-l1-1-0.dll"), Some("ucrtbase.dll"));
}

#[test]
fn apiset_other_names_are_not_aliases() {
    assert_eq!(apiset("kernel32.dll"), None);
    assert_eq!(apiset("ucrtbase.dll"), None);
    assert_eq!(apiset(""), None);
}

#[test]
fn import_symbol_by_name_prints_the_name() {
    assert_eq!(ImportSymbol::Name("GetProcAddress").to_string(), "GetProcAddress");
}

#[test]
fn import_symbol_by_ordinal_prints_decimal() {
    assert_eq!(ImportSymbol::Ordinal(123).to_string(), "123");
    assert_eq!(ImportSymbol::Ordinal(0).to_string(), "0");
    assert_eq!(ImportSymbol::Ordinal(4294967295).to_string(), "4294967295");
}

#[test]
fn state_new_holds_kernel32() {
    let k = kernel32::State::new("app.exe arg".to_string());
    assert_eq!(k.teb, 0);
    assert!(k.dlls.is_empty());
    assert_eq!(k.mappings.as_vec().len(), 1);
    let s = State::new(k);
    assert_eq!(s.kernel32.cmdline, "app.exe arg");
    assert_eq!(s.kernel32.mappings.as_vec()[0].addr, 0);
    assert_eq!(s.kernel32.mappings.as_vec()[0].size, 0x1000);
    assert_eq!(s.kernel32.mappings.as_vec()[0].desc, "avoid null pointers");
}
