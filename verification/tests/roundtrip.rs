use bitcoinrpc::{
    Block, BlockChainInfo, ChainTips, GetBlockReply, Json, MemPoolInfo, RawMemPool, Real,
    ScriptPubKey, SerializedBlock, Tip, TxDescription, TxOut, TxOutSetInfo, TXIDS,
};

fn text(s: &str) -> Json {
    Json::String(String::from(s))
}

fn number(s: &str) -> Json {
    Json::Number(String::from(s))
}

fn amount(s: &str) -> Real {
    Real::new(String::from(s)).unwrap()
}

fn object(members: Vec<(&str, Json)>) -> Json {
    Json::Object(members.into_iter().map(|(k, v)| (String::from(k), v)).collect())
}

fn block() -> Block {
    Block {
        hash: String::from("00ff"),
        confirmations: 3,
        size: 285,
        height: 0,
        version: -1,
        merkleroot: String::from("4a5e"),
        tx: vec![text("4a5e"), Json::Null],
        txid: String::from("abc123"),
        time: 1231006505,
        nonce: i64::MAX,
        bits: String::from("1d00ffff"),
        chainwork: String::from("01"),
        previousblockhash: None,
        nextblockhash: Some(String::from("0839")),
    }
}

fn entry() -> TxDescription {
    TxDescription {
        txid: String::from("abc123"),
        size: 225,
        fee: amount("0.0001"),
        time: 1231006505,
        height: 7,
        startingpriority: 10,
        currentpriority: i64::MIN,
        depends: vec![String::from("ab"), String::from("cd")],
    }
}

#[test]
fn tip_is_written_under_its_wire_names() {
    let tip = Tip {
        height: 7,
        hash: String::from("00ff"),
        branchlen: -2,
        status: String::from("active"),
    };
    let written = tip.to_json();
    assert_eq!(
        written,
        object(vec![
            ("height", number("7")),
            ("hash", text("00ff")),
            ("branchlen", number("-2")),
            ("status", text("active")),
        ])
    );
    assert_eq!(Tip::from_json(&written), Ok(tip));
}

#[test]
fn block_is_written_under_its_wire_names() {
    let written = block().to_json();
    assert_eq!(
        written,
        object(vec![
            ("hash", text("00ff")),
            ("confirmations", number("3")),
            ("size", number("285")),
            ("height", number("0")),
            ("version", number("-1")),
            ("merkleroot", text("4a5e")),
            ("tx", Json::Array(vec![text("4a5e"), Json::Null])),
            ("TXID", text("abc123")),
            ("time", number("1231006505")),
            ("nonce", number("9223372036854775807")),
            ("bits", text("1d00ffff")),
            ("chainwork", text("01")),
            ("previousblockhash", Json::Null),
            ("nextblockhash", text("0839")),
        ])
    );
    assert_eq!(Block::from_json(&written), Ok(block()));
}

#[test]
fn output_is_written_under_its_wire_names() {
    let output = TxOut {
        bestblock: String::from("00ff"),
        confirmations: 1,
        value: amount("50.00000000"),
        scriptpubkey: ScriptPubKey {
            assembly: String::from("OP_DUP"),
            hex: String::from("76"),
            reqsigs: 1,
            scripttype: String::from("pubkeyhash"),
            addresses: vec![String::from("mq7se9")],
        },
        version: 1,
        coinbase: true,
    };
    let written = output.to_json();
    assert_eq!(
        written,
        object(vec![
            ("bestblock", text("00ff")),
            ("confirmations", number("1")),
            ("value", number("50.00000000")),
            (
                "scriptPubKey",
                object(vec![
                    ("asm", text("OP_DUP")),
                    ("hex", text("76")),
                    ("regSigs", number("1")),
                    ("type", text("pubkeyhash")),
                    ("addresses", Json::Array(vec![text("mq7se9")])),
                ]),
            ),
            ("version", number("1")),
            ("coinbase", Json::Bool(true)),
        ])
    );
    assert_eq!(TxOut::from_json(&written), Ok(output));
}

#[test]
fn every_record_that_is_written_is_read_back() {
    let info = BlockChainInfo {
        chain: String::from("main"),
        blocks: u64::MAX,
        headers: 0,
        bestblockhash: String::from("00ff"),
        difficulty: amount("1.5e3"),
        verificationprogress: amount("0.99"),
        chainwork: String::from("0f"),
    };
    assert_eq!(
        info.to_json().member("blocks"),
        Some(&number("18446744073709551615"))
    );
    assert_eq!(BlockChainInfo::from_json(&info.to_json()), Ok(info));

    let tips = ChainTips {
        result: vec![
            Tip {
                height: 7,
                hash: String::from("00ff"),
                branchlen: 0,
                status: String::from("active"),
            },
            Tip {
                height: 5,
                hash: String::from("00aa"),
                branchlen: 2,
                status: String::from("fork"),
            },
        ],
    };
    assert_eq!(ChainTips::from_json(&tips.to_json()), Ok(tips));
    let none = ChainTips { result: vec![] };
    assert_eq!(none.to_json(), object(vec![("result", Json::Array(vec![]))]));
    assert_eq!(ChainTips::from_json(&none.to_json()), Ok(none));

    let pool = MemPoolInfo { size: 2, bytes: 500 };
    assert_eq!(pool.to_json(), object(vec![("size", number("2")), ("bytes", number("500"))]));
    assert_eq!(MemPoolInfo::from_json(&pool.to_json()), Ok(pool));

    assert_eq!(
        entry().to_json(),
        object(vec![
            ("TXID", text("abc123")),
            ("size", number("225")),
            ("fee", number("0.0001")),
            ("time", number("1231006505")),
            ("height", number("7")),
            ("startingpriority", number("10")),
            ("currentpriority", number("-9223372036854775808")),
            ("depends", Json::Array(vec![text("ab"), text("cd")])),
        ])
    );
    assert_eq!(TxDescription::from_json(&entry().to_json()), Ok(entry()));

    let summary = TxOutSetInfo {
        height: 7,
        bestblock: String::from("00ff"),
        transactions: 3,
        txouts: 4,
        bytes_serialized: 210,
        hash_serialized: String::from("ab"),
        total_amount: amount("150"),
    };
    assert_eq!(TxOutSetInfo::from_json(&summary.to_json()), Ok(summary));
}

#[test]
fn replies_of_two_shapes_keep_their_variant() {
    let detailed = GetBlockReply::True(block());
    assert_eq!(detailed.to_json(), block().to_json());
    assert_eq!(GetBlockReply::from_json(&detailed.to_json()), Ok(detailed));

    let raw = SerializedBlock { result: String::from("0100") };
    assert_eq!(raw.to_json(), object(vec![("result", text("0100"))]));
    assert_eq!(SerializedBlock::from_json(&raw.to_json()), Ok(raw.clone()));
    let simple = GetBlockReply::False(raw);
    assert_eq!(GetBlockReply::from_json(&simple.to_json()), Ok(simple));

    let detailed = RawMemPool::True(entry());
    assert_eq!(RawMemPool::from_json(&detailed.to_json()), Ok(detailed));

    let ids = TXIDS { result: vec![String::from("ab")] };
    assert_eq!(ids.to_json(), object(vec![("result", Json::Array(vec![text("ab")]))]));
    assert_eq!(TXIDS::from_json(&ids.to_json()), Ok(ids.clone()));
    let simple = RawMemPool::False(ids);
    assert_eq!(RawMemPool::from_json(&simple.to_json()), Ok(simple));
}

#[test]
fn a_clone_holds_what_the_record_holds() {
    assert_eq!(block().clone(), block());
    assert_eq!(entry().clone(), entry());
    let detailed = GetBlockReply::True(block());
    assert_eq!(detailed.clone(), detailed);
    let simple = RawMemPool::False(TXIDS { result: vec![String::from("ab"), String::from("cd")] });
    assert_eq!(simple.clone(), simple);
    let tips = ChainTips {
        result: vec![Tip {
            height: 7,
            hash: String::from("00ff"),
            branchlen: 0,
            status: String::from("active"),
        }],
    };
    assert_eq!(tips.clone(), tips);
}
