use bitcoinrpc::{
    BitcoinRpc, DecodeError, GetBlockReply, Json, RawMemPool, Reply, RpcError, SerializedBlock,
    TXIDS,
};

fn convert(j: &strason::Json) -> Json {
    if let Some(b) = j.bool() {
        Json::Bool(b)
    } else if let Some(n) = j.num() {
        Json::Number(n.to_owned())
    } else if let Some(s) = j.string() {
        Json::String(s.to_owned())
    } else if let Some(items) = j.array() {
        Json::Array(items.iter().map(convert).collect())
    } else if let Some(members) = j.object() {
        Json::Object(members.iter().map(|m| (m.0.clone(), convert(&m.1))).collect())
    } else {
        Json::Null
    }
}

fn json(text: &str) -> Json {
    convert(&strason::Json::from_str(text).unwrap())
}

/// What a transport hands back when the server's body is `body`.
fn served(body: &str) -> Reply {
    let parsed = match strason::Json::from_str(body) {
        Ok(j) => j,
        Err(_) => return Reply::Garbled,
    };
    let response: Result<jsonrpc_v1::Response, strason::Error> = parsed.into_deserialize();
    match response {
        Ok(r) => Reply::Response {
            result: r.result.as_ref().map(convert),
            error: r.error.as_ref().map(convert),
        },
        Err(_) => Reply::Garbled,
    }
}

const BLOCK: &str = r#"{
 "hash": "000000000019d6689c085ae165831e934ff763ae46a2a6c172b3f1b60a8ce26f",
 "confirmations": 3, "size": 285, "height": 0, "version": 1,
 "merkleroot": "4a5e1e4baab89f3a32518a88c31bc87f618f76673e2cc77ab2127b7afdeda33b",
 "tx": ["4a5e1e4baab89f3a32518a88c31bc87f618f76673e2cc77ab2127b7afdeda33b"],
 "TXID": "4a5e", "time": 1231006505, "nonce": 2083236893, "bits": "1d00ffff",
 "chainwork": "0000000100010001", "previousblockhash": null,
 "nextblockhash": "00000000839a8e6886ab5951d76f411475428afc90947ee320161bbf18eb6048"
}"#;

fn envelope(result: &str) -> String {
    format!("{{\"result\": {}, \"error\": null, \"id\": 1}}", result)
}

#[test]
fn test_blockchain_methods() {
    let client = BitcoinRpc::new(
        "localhost:18332",
        Some(String::from("user")),
        Some(String::from("pass")),
    );

    let request = client.getbestblockhash();
    assert_eq!(request.method, "getbestblockhash");
    client.getbestblockhash_reply(served(&envelope("\"00ff\""))).unwrap();

    let request = client.getblock(String::from(""), false);
    assert_eq!(request.method, "getblock");
    assert_eq!(request.params, vec![Json::String(String::from("")), Json::Bool(false)]);
    client.getblock_reply(served(&envelope("\"0100000000\""))).unwrap();
    client.getblock_reply(served(&envelope(BLOCK))).unwrap();

    let request = client.getblockchaininfo();
    assert_eq!(request.method, "getblockchaininfo");
    client
        .getblockchaininfo_reply(served(&envelope(
            r#"{"chain": "test", "blocks": 7, "headers": 9, "bestblockhash": "00ff",
                "difficulty": 1.5, "verificationprogress": 0.25, "chainwork": "0f"}"#,
        )))
        .unwrap();

    let request = client.getblockcount();
    assert_eq!(request.method, "getblockcount");
    client.getblockcount_reply(served(&envelope("7"))).unwrap();

    let request = client.getblockhash(0);
    assert_eq!(request.method, "getblockhash");
    assert_eq!(request.params, vec![Json::Number(String::from("0"))]);
    client.getblockhash_reply(served(&envelope("\"00ff\""))).unwrap();

    let request = client.getchaintips();
    assert_eq!(request.method, "getchaintips");
    client
        .getchaintips_reply(served(&envelope(
            r#"{"result": [{"height": 7, "hash": "00ff", "branchlen": 0, "status": "active"}]}"#,
        )))
        .unwrap();

    let request = client.getdifficulty();
    assert_eq!(request.method, "getdifficulty");
    client.getdifficulty_reply(served(&envelope("1.0"))).unwrap();

    let request = client.getmempoolinfo();
    assert_eq!(request.method, "getmempoolinfo");
    client.getmempoolinfo_reply(served(&envelope(r#"{"size": 2, "bytes": 500}"#))).unwrap();

    let request = client.getrawmempool(false);
    assert_eq!(request.method, "getrawmempool");
    assert_eq!(request.params, vec![Json::Bool(false)]);
    client.getrawmempool_reply(served(&envelope(r#"["ab", "cd"]"#))).unwrap();

    let request = client.gettxout(String::from(""), 0, false);
    assert_eq!(request.method, "gettxout");
    assert_eq!(
        request.params,
        vec![Json::String(String::from("")), Json::Number(String::from("0")), Json::Bool(false)]
    );
    client
        .gettxout_reply(served(&envelope(
            r#"{"bestblock": "00ff", "confirmations": 1, "value": 50.0,
                "scriptPubKey": {"asm": "OP_DUP", "hex": "76", "regSigs": 1, "type": "pubkeyhash",
                                 "addresses": ["mq"]},
                "version": 1, "coinbase": true}"#,
        )))
        .unwrap();

    let request = client.gettxoutsetinfo();
    assert_eq!(request.method, "gettxoutsetinfo");
    client
        .gettxoutsetinfo_reply(served(&envelope(
            r#"{"height": 7, "bestblock": "00ff", "transactions": 3, "txouts": 4,
                "bytes_serialized": 210, "hash_serialized": "ab", "total_amount": 150.0}"#,
        )))
        .unwrap();
}

#[test]
fn server_reply_with_a_hash_is_the_hash() {
    let client = BitcoinRpc::new("localhost:18332", None, None);
    let reply = served(r#"{"result":"0000...ff","error":null,"id":1}"#);
    assert_eq!(client.getbestblockhash_reply(reply), Ok(String::from("0000...ff")));
}

#[test]
fn server_rejection_is_a_protocol_error_for_every_call() {
    let client = BitcoinRpc::new("localhost:18332", None, None);
    let body = r#"{"result":null,"error":{"code":-5,"message":"Block not found"},"id":1}"#;
    let refused = RpcError::Protocol { code: -5, message: String::from("Block not found") };
    assert_eq!(client.getbestblockhash_reply(served(body)), Err(refused.clone()));
    assert_eq!(client.getblock_reply(served(body)), Err(refused.clone()));
    assert_eq!(client.getblockchaininfo_reply(served(body)), Err(refused.clone()));
    assert_eq!(client.getblockcount_reply(served(body)), Err(refused.clone()));
    assert_eq!(client.getblockhash_reply(served(body)), Err(refused.clone()));
    assert_eq!(client.getchaintips_reply(served(body)), Err(refused.clone()));
    assert_eq!(client.getdifficulty_reply(served(body)), Err(refused.clone()));
    assert_eq!(client.getmempoolinfo_reply(served(body)), Err(refused.clone()));
    assert_eq!(client.getrawmempool_reply(served(body)), Err(refused.clone()));
    assert_eq!(client.gettxout_reply(served(body)), Err(refused.clone()));
    assert_eq!(client.gettxoutsetinfo_reply(served(body)), Err(refused));
}

#[test]
fn height_out_of_range_is_sent_as_it_is_and_refused_by_the_server() {
    let client = BitcoinRpc::new("localhost:18332", None, None);
    let request = client.getblockhash(-1);
    assert_eq!(request.params, vec![Json::Number(String::from("-1"))]);
    let request = client.getblockhash(i64::MAX);
    assert_eq!(request.params, vec![Json::Number(String::from("9223372036854775807"))]);
    let request = client.getblockhash(i64::MIN);
    assert_eq!(request.params, vec![Json::Number(String::from("-9223372036854775808"))]);
    let request = client.gettxout(String::from("ab"), -7, true);
    assert_eq!(
        request.params,
        vec![Json::String(String::from("ab")), Json::Number(String::from("-7")), Json::Bool(true)]
    );
    let body =
        r#"{"result":null,"error":{"code":-8,"message":"Block height out of range"},"id":1}"#;
    assert_eq!(
        client.getblockhash_reply(served(body)),
        Err(RpcError::Protocol { code: -8, message: String::from("Block height out of range") })
    );
}

#[test]
fn no_block_at_a_height_is_an_answer() {
    let client = BitcoinRpc::new("localhost:18332", None, None);
    let reply = served(r#"{"result":null,"error":null,"id":1}"#);
    assert_eq!(client.getblockhash_reply(reply), Ok(None));
    let reply = Reply::Response { result: Some(Json::Null), error: Some(Json::Null) };
    assert_eq!(client.getblockhash_reply(reply), Ok(None));
    let reply = served(r#"{"result":"00ff","error":null,"id":1}"#);
    assert_eq!(client.getblockhash_reply(reply), Ok(Some(String::from("00ff"))));
    // For a call that must return a value, the same response is unreadable.
    let reply = served(r#"{"result":null,"error":null,"id":1}"#);
    assert_eq!(
        client.getbestblockhash_reply(reply),
        Err(RpcError::Decode(DecodeError::TypeMismatch))
    );
}

#[test]
fn the_three_kinds_of_failure_are_kept_apart() {
    let client = BitcoinRpc::new("localhost:18332", None, None);
    assert_eq!(
        client.getblockcount_reply(Reply::Failed(String::from("connection refused"))),
        Err(RpcError::Transport(String::from("connection refused")))
    );
    assert_eq!(
        client.getblockcount_reply(served("<html>502</html>")),
        Err(RpcError::Decode(DecodeError::Garbled))
    );
    assert_eq!(
        client.getblockcount_reply(served(r#"{"result":7,"error":"busy","id":1}"#)),
        Err(RpcError::Decode(DecodeError::BadErrorObject))
    );
    assert_eq!(
        client.getblockcount_reply(served(
            r#"{"result":7,"error":{"code":"x","message":"m"},"id":1}"#
        )),
        Err(RpcError::Decode(DecodeError::BadErrorObject))
    );
    assert_eq!(
        client.getblockcount_reply(served(r#"{"result":7,"error":{"code":-1},"id":1}"#)),
        Err(RpcError::Decode(DecodeError::BadErrorObject))
    );
    assert_eq!(
        client.getblockcount_reply(served(r#"{"result":"seven","error":null,"id":1}"#)),
        Err(RpcError::Decode(DecodeError::TypeMismatch))
    );
    // An error wins over a result that came with it.
    assert_eq!(
        client.getblockcount_reply(served(
            r#"{"result":7,"error":{"code":-1,"message":"m"},"id":1}"#
        )),
        Err(RpcError::Protocol { code: -1, message: String::from("m") })
    );
    assert_eq!(client.getblockcount_reply(served(r#"{"result":7,"error":null,"id":1}"#)), Ok(7));
}

#[test]
fn replies_of_two_shapes_are_told_apart() {
    let client = BitcoinRpc::new("localhost:18332", None, None);
    match client.getblock_reply(served(&envelope(BLOCK))) {
        Ok(GetBlockReply::True(block)) => {
            assert_eq!(block.height, 0);
            assert_eq!(block.txid, "4a5e");
            assert_eq!(block.previousblockhash, None);
        }
        other => panic!("expected the detailed shape, got {:?}", other),
    }
    assert_eq!(
        client.getblock_reply(served(&envelope("\"0100\""))),
        Ok(GetBlockReply::False(SerializedBlock { result: String::from("0100") }))
    );
    assert_eq!(
        client.getblock_reply(served(&envelope("17"))),
        Err(RpcError::Decode(DecodeError::NoShape))
    );
    assert_eq!(
        client.getrawmempool_reply(served(&envelope(r#"["ab"]"#))),
        Ok(RawMemPool::False(TXIDS { result: vec![String::from("ab")] }))
    );
    assert_eq!(
        client.getrawmempool_reply(served(&envelope("true"))),
        Err(RpcError::Decode(DecodeError::NoShape))
    );
}

#[test]
fn requests_and_replies_can_be_copied() {
    let client = BitcoinRpc::new("localhost:18332", None, None);
    let request = client.gettxout(String::from("ab"), 1, true);
    assert_eq!(request.clone(), request);
    let reply = served(r#"{"result":{"a":[1,null]},"error":null,"id":1}"#);
    assert_eq!(reply.clone(), reply);
    let failed = Reply::Failed(String::from("timed out"));
    assert_eq!(failed.clone(), failed);
    assert_eq!(Reply::Garbled.clone(), Reply::Garbled);
}
