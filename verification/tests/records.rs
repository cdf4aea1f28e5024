use bitcoinrpc::{
    Block, BlockChainInfo, ChainTips, DecodeError, GetBlockReply, Json, MemPoolInfo, RawMemPool,
    ScriptPubKey, SerializedBlock, Tip, TxDescription, TxOut, TxOutSetInfo, TXIDS,
};

fn convert(j: &strason::Json) -> Json {
    if let Some(b) = j.bool() {
        Json::Bool(b)
    } else if let Some(n) = j.num() {
        Json::Number(n.to_owned())
    } else if let Some(s) = j.string() {
        Json::String(s.to_owned())
    } else if let Some(items) = j.array() {
        Json::Array(items.iter().map(convert).collect())
    } else if let Some(members) = j.object() {
        Json::Object(members.iter().map(|m| (m.0.clone(), convert(&m.1))).collect())
    } else {
        Json::Null
    }
}

fn json(text: &str) -> Json {
    convert(&strason::Json::from_str(text).unwrap())
}

const BLOCK: &str = r#"{
 "hash": "00ff", "confirmations": 3, "size": 285, "height": 0, "version": 1,
 "merkleroot": "4a5e", "tx": ["4a5e", {"txid": "4a5e"}], "TXID": "abc123",
 "time": 1231006505, "nonce": 2083236893, "bits": "1d00ffff", "chainwork": "01",
 "previousblockhash": null, "nextblockhash": "0839"
}"#;

const ENTRY: &str = r#"{
 "TXID": "abc123", "size": 225, "fee": 0.0001, "time": 1231006505, "height": 7,
 "startingpriority": 10, "currentpriority": 12, "depends": ["ab", "cd"]
}"#;

const OUTPUT: &str = r#"{
 "bestblock": "00ff", "confirmations": 1, "value": 50.00000000,
 "scriptPubKey": {"asm": "OP_DUP OP_HASH160", "hex": "76a9", "regSigs": 1,
                  "type": "pubkeyhash", "addresses": ["mq7se9"]},
 "version": 1, "coinbase": true
}"#;

fn without(j: &Json, name: &str) -> Json {
    match j {
        Json::Object(members) => {
            Json::Object(members.iter().filter(|m| m.0 != name).cloned().collect())
        }
        other => other.clone(),
    }
}

fn with(j: &Json, name: &str, value: Json) -> Json {
    match j {
        Json::Object(members) => {
            let mut all = members.clone();
            all.push((String::from(name), value));
            Json::Object(all)
        }
        other => other.clone(),
    }
}

#[test]
fn wire_name_txid_fills_the_field_txid() {
    let block = Block::from_json(&json(BLOCK)).unwrap();
    assert_eq!(block.txid, "abc123");
    let entry = TxDescription::from_json(&json(ENTRY)).unwrap();
    assert_eq!(entry.txid, "abc123");
    // The name of the field itself is not its name on the wire.
    let renamed =
        with(&without(&json(ENTRY), "TXID"), "txid", Json::String(String::from("abc123")));
    assert_eq!(TxDescription::from_json(&renamed), Err(DecodeError::MissingField));
}

#[test]
fn wire_name_script_pub_key_fills_the_field_scriptpubkey() {
    let output = TxOut::from_json(&json(OUTPUT)).unwrap();
    assert_eq!(
        output.scriptpubkey,
        ScriptPubKey {
            assembly: String::from("OP_DUP OP_HASH160"),
            hex: String::from("76a9"),
            reqsigs: 1,
            scripttype: String::from("pubkeyhash"),
            addresses: vec![String::from("mq7se9")],
        }
    );
    assert_eq!(output.bestblock, "00ff");
    assert_eq!(output.confirmations, 1);
    assert_eq!(output.value.as_str(), "50.00000000");
    assert_eq!(output.version, 1);
    assert!(output.coinbase);
    let renamed = with(
        &without(&json(OUTPUT), "scriptPubKey"),
        "scriptpubkey",
        json(OUTPUT).member("scriptPubKey").unwrap().clone(),
    );
    assert_eq!(TxOut::from_json(&renamed), Err(DecodeError::MissingField));
}

#[test]
fn a_block_is_read_field_by_field() {
    let block = Block::from_json(&json(BLOCK)).unwrap();
    assert_eq!(block.hash, "00ff");
    assert_eq!(block.confirmations, 3);
    assert_eq!(block.size, 285);
    assert_eq!(block.height, 0);
    assert_eq!(block.version, 1);
    assert_eq!(block.merkleroot, "4a5e");
    assert_eq!(
        block.tx,
        vec![
            Json::String(String::from("4a5e")),
            Json::Object(vec![(String::from("txid"), Json::String(String::from("4a5e")))]),
        ]
    );
    assert_eq!(block.time, 1231006505);
    assert_eq!(block.nonce, 2083236893);
    assert_eq!(block.bits, "1d00ffff");
    assert_eq!(block.chainwork, "01");
    assert_eq!(block.previousblockhash, None);
    assert_eq!(block.nextblockhash, Some(String::from("0839")));
}

#[test]
fn an_optional_member_may_be_absent_or_null() {
    let absent = without(&json(BLOCK), "nextblockhash");
    assert_eq!(Block::from_json(&absent).unwrap().nextblockhash, None);
    let null = with(&json(BLOCK), "nextblockhash", Json::Null);
    assert_eq!(Block::from_json(&null).unwrap().nextblockhash, None);
    let number = with(&json(BLOCK), "nextblockhash", Json::Number(String::from("7")));
    assert_eq!(Block::from_json(&number), Err(DecodeError::TypeMismatch));
}

#[test]
fn a_missing_member_is_reported_as_missing() {
    for name in [
        "hash", "confirmations", "size", "height", "version", "merkleroot", "tx", "TXID", "time",
        "nonce", "bits", "chainwork",
    ] {
        assert_eq!(
            Block::from_json(&without(&json(BLOCK), name)),
            Err(DecodeError::MissingField),
            "{}",
            name
        );
    }
    assert_eq!(MemPoolInfo::from_json(&json(r#"{"size": 1}"#)), Err(DecodeError::MissingField));
    assert_eq!(MemPoolInfo::from_json(&json("{}")), Err(DecodeError::MissingField));
}

#[test]
fn a_member_of_another_type_is_reported_as_mismatch() {
    assert_eq!(
        MemPoolInfo::from_json(&json(r#"{"size": "1", "bytes": 2}"#)),
        Err(DecodeError::TypeMismatch)
    );
    assert_eq!(
        MemPoolInfo::from_json(&json(r#"{"size": 1.5, "bytes": 2}"#)),
        Err(DecodeError::TypeMismatch)
    );
    assert_eq!(
        MemPoolInfo::from_json(&json(r#"{"size": null, "bytes": 2}"#)),
        Err(DecodeError::TypeMismatch)
    );
    assert_eq!(
        MemPoolInfo::from_json(&json(r#"{"size": 9223372036854775808, "bytes": 2}"#)),
        Err(DecodeError::TypeMismatch)
    );
    assert_eq!(MemPoolInfo::from_json(&json("[1, 2]")), Err(DecodeError::TypeMismatch));
    assert_eq!(MemPoolInfo::from_json(&json("null")), Err(DecodeError::TypeMismatch));
    assert_eq!(
        Block::from_json(&with(&json(BLOCK), "tx", Json::String(String::from("4a5e")))),
        Err(DecodeError::TypeMismatch)
    );
    assert_eq!(
        TxOut::from_json(&with(&json(OUTPUT), "coinbase", Json::Number(String::from("1")))),
        Err(DecodeError::TypeMismatch)
    );
    assert_eq!(
        TxOut::from_json(&with(&json(OUTPUT), "value", Json::Number(String::from("1e")))),
        Err(DecodeError::TypeMismatch)
    );
    assert_eq!(
        TxOut::from_json(&with(&json(OUTPUT), "scriptPubKey", Json::String(String::from("76a9")))),
        Err(DecodeError::TypeMismatch)
    );
    assert_eq!(
        TxDescription::from_json(&with(&json(ENTRY), "depends", json(r#"["ab", 7]"#))),
        Err(DecodeError::TypeMismatch)
    );
}

#[test]
fn the_first_member_that_fails_decides_the_error() {
    // `size` has the wrong type and `bytes` is missing: `size` comes first.
    assert_eq!(MemPoolInfo::from_json(&json(r#"{"size": true}"#)), Err(DecodeError::TypeMismatch));
    // `size` is missing and `bytes` has the wrong type.
    assert_eq!(MemPoolInfo::from_json(&json(r#"{"bytes": true}"#)), Err(DecodeError::MissingField));
}

#[test]
fn members_that_the_record_does_not_name_are_passed_over() {
    assert_eq!(
        MemPoolInfo::from_json(&json(r#"{"usage": 9, "size": 1, "bytes": 2, "maxmempool": 3}"#)),
        Ok(MemPoolInfo { size: 1, bytes: 2 })
    );
}

#[test]
fn the_last_of_two_members_of_one_name_counts() {
    assert_eq!(
        MemPoolInfo::from_json(&json(r#"{"size": 1, "bytes": 2, "size": 5}"#)),
        Ok(MemPoolInfo { size: 5, bytes: 2 })
    );
    assert_eq!(
        MemPoolInfo::from_json(&json(r#"{"size": 1, "bytes": 2, "size": "five"}"#)),
        Err(DecodeError::TypeMismatch)
    );
}

#[test]
fn chain_records_are_read() {
    let info = BlockChainInfo::from_json(&json(
        r#"{"chain": "main", "blocks": 18446744073709551615, "headers": 9, "bestblockhash": "00ff",
            "difficulty": 1.5e3, "verificationprogress": 0.99, "chainwork": "0f"}"#,
    ))
    .unwrap();
    assert_eq!(info.chain, "main");
    assert_eq!(info.blocks, u64::MAX);
    assert_eq!(info.headers, 9);
    assert_eq!(info.bestblockhash, "00ff");
    assert_eq!(info.difficulty.as_str(), "1.5e3");
    assert_eq!(info.verificationprogress.as_str(), "0.99");
    assert_eq!(info.chainwork, "0f");
    assert_eq!(
        BlockChainInfo::from_json(&json(
            r#"{"chain": "main", "blocks": -1, "headers": 9, "bestblockhash": "00ff",
                "difficulty": 1.5e3, "verificationprogress": 0.99, "chainwork": "0f"}"#,
        )),
        Err(DecodeError::TypeMismatch)
    );

    let tips = ChainTips::from_json(&json(
        r#"{"result": [{"height": 7, "hash": "00ff", "branchlen": 0, "status": "active"},
                       {"height": 5, "hash": "00aa", "branchlen": 2, "status": "valid-fork"}]}"#,
    ))
    .unwrap();
    assert_eq!(
        tips.result,
        vec![
            Tip {
                height: 7,
                hash: String::from("00ff"),
                branchlen: 0,
                status: String::from("active"),
            },
            Tip {
                height: 5,
                hash: String::from("00aa"),
                branchlen: 2,
                status: String::from("valid-fork"),
            },
        ]
    );
    assert_eq!(ChainTips::from_json(&json(r#"{"result": []}"#)), Ok(ChainTips { result: vec![] }));
    assert_eq!(ChainTips::from_json(&json("{}")), Err(DecodeError::MissingField));
    assert_eq!(ChainTips::from_json(&json("[]")), Err(DecodeError::TypeMismatch));
    assert_eq!(ChainTips::from_json(&json(r#"{"result": {}}"#)), Err(DecodeError::TypeMismatch));
    // The first tip that cannot be read decides.
    assert_eq!(
        ChainTips::from_json(&json(
            r#"{"result": [{"height": 7, "hash": "00ff", "branchlen": 0, "status": "active"},
                           {"height": 5, "hash": "00aa", "branchlen": 2},
                           {"height": "x"}]}"#
        )),
        Err(DecodeError::MissingField)
    );
    assert_eq!(
        ChainTips::from_json(&json(r#"{"result": [7]}"#)),
        Err(DecodeError::TypeMismatch)
    );
}

#[test]
fn unspent_output_summary_is_read() {
    let summary = TxOutSetInfo::from_json(&json(
        r#"{"height": 7, "bestblock": "00ff", "transactions": 3, "txouts": 4,
            "bytes_serialized": 210, "hash_serialized": "ab", "total_amount": 150.00000000}"#,
    ))
    .unwrap();
    assert_eq!(summary.height, 7);
    assert_eq!(summary.bestblock, "00ff");
    assert_eq!(summary.transactions, 3);
    assert_eq!(summary.txouts, 4);
    assert_eq!(summary.bytes_serialized, 210);
    assert_eq!(summary.hash_serialized, "ab");
    assert_eq!(summary.total_amount.as_str(), "150.00000000");
}

#[test]
fn detailed_shape_gives_the_detailed_variant() {
    match GetBlockReply::from_json(&json(BLOCK)) {
        Ok(GetBlockReply::True(block)) => assert_eq!(block.hash, "00ff"),
        other => panic!("{:?}", other),
    }
    match RawMemPool::from_json(&json(ENTRY)) {
        Ok(RawMemPool::True(entry)) => {
            assert_eq!(entry.txid, "abc123");
            assert_eq!(entry.size, 225);
            assert_eq!(entry.fee.as_str(), "0.0001");
            assert_eq!(entry.time, 1231006505);
            assert_eq!(entry.height, 7);
            assert_eq!(entry.startingpriority, 10);
            assert_eq!(entry.currentpriority, 12);
            assert_eq!(entry.depends, vec![String::from("ab"), String::from("cd")]);
        }
        other => panic!("{:?}", other),
    }
    // The detailed shape wins where a value has both.
    let both = with(&json(BLOCK), "result", Json::String(String::from("0100")));
    assert!(matches!(GetBlockReply::from_json(&both), Ok(GetBlockReply::True(_))));
    let both = with(&json(ENTRY), "result", json(r#"["ab"]"#));
    assert!(matches!(RawMemPool::from_json(&both), Ok(RawMemPool::True(_))));
}

#[test]
fn simple_shape_gives_the_simple_variant() {
    let raw = SerializedBlock { result: String::from("0100") };
    assert_eq!(GetBlockReply::from_json(&json("\"0100\"")), Ok(GetBlockReply::False(raw.clone())));
    assert_eq!(
        GetBlockReply::from_json(&json(r#"{"result": "0100"}"#)),
        Ok(GetBlockReply::False(raw.clone()))
    );
    // A block that lacks a member is no block: the simple shape is tried.
    let partial =
        with(&without(&json(BLOCK), "bits"), "result", Json::String(String::from("0100")));
    assert_eq!(GetBlockReply::from_json(&partial), Ok(GetBlockReply::False(raw)));

    let ids = TXIDS { result: vec![String::from("ab"), String::from("cd")] };
    assert_eq!(RawMemPool::from_json(&json(r#"["ab", "cd"]"#)), Ok(RawMemPool::False(ids.clone())));
    assert_eq!(
        RawMemPool::from_json(&json(r#"{"result": ["ab", "cd"]}"#)),
        Ok(RawMemPool::False(ids))
    );
    assert_eq!(RawMemPool::from_json(&json("[]")), Ok(RawMemPool::False(TXIDS { result: vec![] })));
}

#[test]
fn neither_shape_gives_an_error_and_no_value() {
    let others =
        ["null", "7", "true", "[\"0100\"]", "{}", r#"{"result": 7}"#, r#"{"hash": "00ff"}"#];
    for text in others {
        assert_eq!(GetBlockReply::from_json(&json(text)), Err(DecodeError::NoShape), "{}", text);
    }
    for text in ["null", "7", "\"ab\"", "[7]", "{}", r#"{"result": "ab"}"#, r#"{"TXID": "ab"}"#] {
        assert_eq!(RawMemPool::from_json(&json(text)), Err(DecodeError::NoShape), "{}", text);
    }
    assert_eq!(SerializedBlock::from_json(&json("7")), Err(DecodeError::TypeMismatch));
    assert_eq!(SerializedBlock::from_json(&json("{}")), Err(DecodeError::MissingField));
    assert_eq!(
        SerializedBlock::from_json(&json(r#"{"result": 7}"#)),
        Err(DecodeError::TypeMismatch)
    );
    assert_eq!(TXIDS::from_json(&json("\"ab\"")), Err(DecodeError::TypeMismatch));
    assert_eq!(TXIDS::from_json(&json("[7]")), Err(DecodeError::TypeMismatch));
    assert_eq!(TXIDS::from_json(&json("{}")), Err(DecodeError::MissingField));
}
