use qbittorrent_rust::add;
use qbittorrent_rust::auth::Credentials;

#[test]
fn it_works() {
    let result = add(2, 2);
    assert_eq!(result, 4);
}

#[test]
fn test_creds() {
    let s = Credentials::new(String::from("username"), String::from("username"));

    println!("{:?}", s)
}

#[test]
fn logs_test() {
}

#[test]
fn aaaa() {
}
