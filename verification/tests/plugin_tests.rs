use open_music::plugin::{merge_defaults, PluginError, PluginRegistry};

fn s(x: &str) -> String {
    x.to_string()
}

fn none() -> Vec<(String, i32)> {
    Vec::new()
}

fn names(v: &[&str]) -> Vec<String> {
    v.iter().map(|s| s.to_string()).collect()
}

#[test]
fn register_find_unregister() {
    let mut reg: PluginRegistry<u32> = PluginRegistry::new();
    assert!(reg.is_empty());
    let r = reg.register("lyrics".into(), "1.0".into(), names(&["fetch", "clear"]), 7, || Ok(()), &mut none(), vec![]);
    assert!(r.is_ok());
    let r = reg.register("cover".into(), "0.2".into(), names(&["fetch"]), 9, || Ok(()), &mut none(), vec![]);
    assert!(r.is_ok());
    assert_eq!(reg.len(), 2);
    assert_eq!(reg.list(), vec!["lyrics", "cover"]);
    assert_eq!(reg.list_detailed(), vec![("lyrics", "1.0"), ("cover", "0.2")]);
    assert_eq!(reg.get("cover"), Some(&9));
    assert_eq!(reg.find_command("fetch"), Some((&9, 0)));
    assert_eq!(reg.find_command("clear"), Some((&7, 1)));
    assert_eq!(reg.find_command("nope"), None);
    assert_eq!(reg.unregister("cover").ok(), Some(9));
    assert_eq!(reg.find_command("fetch"), None);
    assert_eq!(reg.find_command("clear"), Some((&7, 1)));
    assert!(matches!(reg.unregister("cover"), Err(PluginError::NotRegistered { name }) if name == "cover"));
}

#[test]
fn duplicates_and_failed_init_are_refused() {
    let mut reg: PluginRegistry<&str> = PluginRegistry::new();
    assert!(reg.register("a".into(), "1".into(), vec![], "first", || Ok(()), &mut none(), vec![]).is_ok());
    let mut called = false;
    let r = reg.register("a".into(), "2".into(), vec![], "second", || {
        called = true;
        Ok(())
    }, &mut none(), vec![]);
    assert!(matches!(r, Err(PluginError::AlreadyRegistered { name }) if name == "a"));
    assert!(!called);
    let mut kept = vec![(s("k"), 1)];
    let r = reg.register("b".into(), "1".into(), names(&["x"]), "third", || Err("boom".to_string()), &mut kept, vec![(s("j"), 2)]);
    assert_eq!(kept, vec![(s("k"), 1)]);
    assert!(matches!(r, Err(PluginError::InitFailed { plugin, message }) if plugin == "b" && message == "boom"));
    assert_eq!(reg.len(), 1);
    assert_eq!(reg.find_command("x"), None);
    assert_eq!(reg.get("a"), Some(&"first"));
}

#[test]
fn defaults_merge_without_overwriting() {
    let mut reg: PluginRegistry<u8> = PluginRegistry::new();
    let mut settings = vec![(s("api_key"), 5), (s("lang"), 1)];
    let defaults = vec![(s("lang"), 9), (s("timeout"), 30), (s("timeout"), 40)];
    assert!(reg.register("lyrics".into(), "1".into(), vec![], 0, || Ok(()), &mut settings, defaults).is_ok());
    assert_eq!(settings, vec![(s("api_key"), 5), (s("lang"), 1), (s("timeout"), 30)]);

    let mut t: Vec<(String, &str)> = vec![];
    merge_defaults(&mut t, vec![(s("a"), "x")]);
    assert_eq!(t, vec![(s("a"), "x")]);
}

#[test]
fn unregistered_names_are_gone() {
    let mut reg: PluginRegistry<u8> = PluginRegistry::new();
    assert!(reg.register("p".into(), "1".into(), vec![], 1, || Ok(()), &mut none(), vec![]).is_ok());
    assert!(reg.unregister("p").is_ok());
    assert_eq!(reg.get("p"), None);
    assert!(reg.is_empty());
}
