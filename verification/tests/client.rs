use bitcoinrpc::BitcoinRpc;

#[test]
fn password_without_user_name_is_refused_when_the_handle_is_made() {
    assert!(BitcoinRpc::try_new("localhost:18332", None, Some(String::from("pass"))).is_none());
}

#[test]
fn other_credentials_are_accepted() {
    let nobody = BitcoinRpc::try_new("localhost:18332", None, None).unwrap();
    assert_eq!(nobody.url(), "localhost:18332");
    assert_eq!(nobody.user(), None);
    assert_eq!(nobody.pass(), None);

    let user_only =
        BitcoinRpc::try_new("localhost:18332", Some(String::from("user")), None).unwrap();
    assert_eq!(user_only.user(), Some(&String::from("user")));
    assert_eq!(user_only.pass(), None);

    let both = BitcoinRpc::try_new(
        "https://node.example:8332",
        Some(String::from("user")),
        Some(String::from("pass")),
    )
    .unwrap();
    assert_eq!(both.url(), "https://node.example:8332");
    assert_eq!(both.user(), Some(&String::from("user")));
    assert_eq!(both.pass(), Some(&String::from("pass")));
}

#[test]
fn new_keeps_what_it_is_given() {
    let client =
        BitcoinRpc::new("localhost:18332", Some(String::from("user")), Some(String::from("pass")));
    assert_eq!(client.url(), "localhost:18332");
    assert_eq!(client.user(), Some(&String::from("user")));
    assert_eq!(client.pass(), Some(&String::from("pass")));
    assert_eq!(client.client().last_nonce(), 0);
}

#[test]
fn requests_name_their_method_and_carry_their_arguments_in_order() {
    let client = BitcoinRpc::new("localhost:18332", None, None);
    let calls = vec![
        (client.getbestblockhash(), "getbestblockhash"),
        (client.getblockchaininfo(), "getblockchaininfo"),
        (client.getblockcount(), "getblockcount"),
        (client.getchaintips(), "getchaintips"),
        (client.getdifficulty(), "getdifficulty"),
        (client.getmempoolinfo(), "getmempoolinfo"),
        (client.gettxoutsetinfo(), "gettxoutsetinfo"),
    ];
    for (request, name) in calls {
        assert_eq!(request.method, name);
        assert!(request.params.is_empty());
    }
}
