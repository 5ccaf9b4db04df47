use strings::{compare_ci, lower, Foo};

#[test]
fn test_compare_fails() {
    let hobbit_name = String::from("Bilbo Baggins");

    if "Bilbo Baggins" == hobbit_name {};
    if hobbit_name == "Bilbo Baggins".to_owned() {};
    if hobbit_name.as_str() == "Bilbo Baggins" {};
}

#[test]
fn test_compare_case_insensitive() {
    let x = String::from("Bilbo Bäggins");
    let y = String::from("bILbo bäGgins");

    assert_eq!(compare_ci(&x, &y), true);
}

#[test]
#[allow(unused_variables)]
fn test_ci() {
    let x = "Bilbo";
    let y = "bIlbo";
}

#[test]
fn test_from_str() {
    let f: f32 = "1.2".parse().unwrap();
    assert_eq!(f, 1.2f32);

    let oi: Option<usize> = "1".parse().ok();
    assert_eq!(oi, Some(1usize));

    let oi: Option<usize> = "x".parse().ok();
    assert_eq!(oi, None);

    let i: usize = "2".parse().unwrap();
    assert_eq!(i, 2);

    let i: usize = match "3".parse().ok() {
        Some(value) => value,
        None => panic!("oops, expected a number"),
    };
    assert_eq!(i, 3);

    let i: usize = "4".parse().unwrap_or(0usize);
    assert_eq!(i, 4);

    let i = "5".parse::<usize>().unwrap();
    assert_eq!(i, 5);
}

#[test]
fn test_empty() {
    assert!(String::new().is_empty());
    assert!("".is_empty());
    assert!(!"Bär".is_empty());
}

#[test]
fn test_length() {
    let s = String::from("Bär");
    assert_eq!(s.chars().count(), 3);
}

#[test]
fn test_concat() {
    let x = String::from("abc");
    let y = String::from("def");

    let z = x + &y;
    assert_eq!(String::from("abcdef"), z);

    let a = String::from("foo");
    let b = String::from("bar");
    let mut c = a;
    c.push_str(&b);
    assert_eq!(String::from("foobar"), c);
}

#[test]
fn test_mutate() {
    let mut foo = String::from("foo");
    foo.push_str("bar");
    assert_eq!(String::from("foobar"), foo);
}

#[test]
fn test_replace() {
    let bilbo = String::from("Bilbo Baggins");
    let frodo = bilbo.replace("Bilbo", "Frodo");
    assert_eq!(String::from("Frodo Baggins"), frodo);

    let samwise = bilbo.replace("Frodo", "Samwise");
    assert_eq!(samwise, bilbo);
}

#[test]
fn test_start_end_with() {
    let bilbo = String::from("Bilbo Baggins");
    assert_eq!(bilbo.starts_with("Bilbo"), true);
    assert_eq!(bilbo.starts_with("bilbo"), false);
    assert_eq!(bilbo.ends_with("Baggins"), true);
    assert_eq!(bilbo.ends_with("baggins"), false);
}

#[test]
#[allow(unused_assignments)]
fn test_owned_borrowed() {
    let mut owned: String = String::from("foobar");
    let mut borrowed: &str = "foobaz";

    assert_eq!(owned, String::from("foobar"));
    assert_eq!(borrowed, "foobaz");

    owned = borrowed.to_owned();
    assert_eq!(owned, String::from("foobaz"));

    borrowed = owned.as_str();
    assert_eq!(borrowed, "foobaz");
}

#[test]
fn test_in_struct() {
    let s = String::from("foo");
    let mut foo = Foo { name: s.as_str() };

    assert_eq!(foo.name, "foo");

    let foo = foo.name("bar");
    assert_eq!(foo.name, "bar");
}

#[test]
#[allow(non_snake_case)]
fn Converting_to_String() {
    let i = 1i32;
    assert_eq!(i.to_string(), String::from("1"));
}

#[test]
fn test_to_uppercase() {
    let sl = "foobär";
    let su = "FOOBÄR";

    let mut a = lower(sl);
    let mut b = lower(su);
    let mut z = std::iter::from_fn(move || a.next()).zip(std::iter::from_fn(move || b.next()));
    assert!(z.all(|(x, y)| x == y));
}
