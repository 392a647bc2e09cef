use promptr::env::Env;

#[test]
fn empty_environment() {
    let env = Env::new();
    assert_eq!(None, env.get("HOME"));
    assert!(!env.contains_key("HOME"));
}

#[test]
fn insert_get_remove() {
    let mut env = Env::new();
    env.insert(String::from("HOME"), String::from("/home/a"));
    env.insert(String::from("USER"), String::from("a"));
    assert_eq!(Some(&String::from("/home/a")), env.get("HOME"));
    assert_eq!(Some(&String::from("a")), env.get("USER"));
    assert_eq!(None, env.get("home"));
    assert!(env.contains_key("USER"));

    env.insert(String::from("HOME"), String::from("/home/b"));
    assert_eq!(Some(&String::from("/home/b")), env.get("HOME"));
    assert_eq!(Some(&String::from("a")), env.get("USER"));

    env.remove("HOME");
    assert_eq!(None, env.get("HOME"));
    assert_eq!(Some(&String::from("a")), env.get("USER"));

    env.remove("HOME");
    env.remove("USER");
    assert_eq!(None, env.get("USER"));
}

#[test]
fn empty_names_and_values() {
    let mut env = Env::new();
    env.insert(String::new(), String::new());
    assert_eq!(Some(&String::new()), env.get(""));
    assert_eq!(None, env.get(" "));
}

#[test]
fn every_name_is_kept_once() {
    let mut env = Env::new();
    assert_eq!(0, env.len());
    env.insert(String::from("a"), String::from("1"));
    env.insert(String::from("b"), String::from("2"));
    env.insert(String::from("a"), String::from("3"));
    assert_eq!(2, env.len());
    env.remove("c");
    assert_eq!(2, env.len());
    env.remove("a");
    assert_eq!(1, env.len());
    assert_eq!(None, env.get("a"));
}

#[test]
fn clone_holds_the_same_variables() {
    let mut env = Env::new();
    env.insert(String::from("a"), String::from("1"));
    let mut copy = env.clone();
    assert_eq!(Some(&String::from("1")), copy.get("a"));
    copy.insert(String::from("a"), String::from("2"));
    assert_eq!(Some(&String::from("1")), env.get("a"));
    assert_eq!(Some(&String::from("2")), copy.get("a"));
}
