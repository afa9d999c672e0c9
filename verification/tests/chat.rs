use messenger::chat::{confirms, first_stage, step, Stage, User};

fn yes() -> Result<String, String> {
    Ok("1".to_string())
}

#[test]
fn confirms_only_one() {
    assert!(confirms(&yes()));
    assert!(!confirms(&Ok("0".to_string())));
    assert!(!confirms(&Ok("yes".to_string())));
    assert!(!confirms(&Err("1".to_string())));
}

#[test]
fn joining_makes_a_join_request() {
    let mut u = User::new("ann".to_string());
    assert!(!u.is_joined());
    let r = u.join(yes()).unwrap();
    assert!(u.is_joined());
    assert_eq!(r.get_method(), "1");
    assert_eq!(r.get_from(), "ann");
    assert_eq!(r.get_to(), "");
    assert_eq!(r.get_text(), "");
}

#[test]
fn declining_to_join_changes_nothing() {
    let mut u = User::new("ann".to_string());
    assert!(u.join(Ok("0".to_string())).is_none());
    assert!(u.join(Err("closed".to_string())).is_none());
    assert!(!u.is_joined());
}

#[test]
fn a_message_becomes_a_send_request() {
    let u = User::new("bob".to_string());
    let r = u.enter_messege(Ok("hello all".to_string())).unwrap();
    assert_eq!(r.get_method(), "2");
    assert_eq!(r.get_from(), "bob");
    assert_eq!(r.get_text(), "hello all");
    assert!(u.enter_messege(Err("eof".to_string())).is_none());
}

#[test]
fn dialog_round() {
    let mut u = User::new("cat".to_string());
    assert_eq!(first_stage(&u), Stage::AskJoin);
    let (s, r) = step(&mut u, Stage::AskJoin, yes());
    assert_eq!(s, Stage::AskSend);
    assert_eq!(r.unwrap().get_method(), "1");
    let (s, r) = step(&mut u, s, yes());
    assert_eq!(s, Stage::AskMessage);
    assert!(r.is_none());
    let (s, r) = step(&mut u, s, Ok("hi".to_string()));
    assert_eq!(s, Stage::AskLeave);
    assert_eq!(r.unwrap().get_text(), "hi");
    let (s, r) = step(&mut u, s, Ok("0".to_string()));
    assert_eq!(s, Stage::AskSend);
    assert!(r.is_none());
    let (s, _) = step(&mut u, s, Ok("0".to_string()));
    assert_eq!(s, Stage::AskLeave);
    let (s, _) = step(&mut u, s, yes());
    assert_eq!(s, Stage::Done);
    let (s, r) = step(&mut u, s, yes());
    assert_eq!(s, Stage::Done);
    assert!(r.is_none());
}

#[test]
fn declining_to_join_ends_the_dialog() {
    let mut u = User::new("dan".to_string());
    let (s, r) = step(&mut u, Stage::AskJoin, Ok("0".to_string()));
    assert_eq!(s, Stage::Done);
    assert!(r.is_none());
}
