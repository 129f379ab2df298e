use gateway_client::block::{BlockId, BlockNumber};
use gateway_client::builder::stage;
use gateway_client::builder::{Endpoint, Payload, Request, Verb, X_THROTTLING_BYPASS};
use gateway_client::error::{SequencerError, StarknetError, TransportError, TransportKind};
use gateway_client::felt::{BlockHash, ClassHash, Felt, TransactionHash};
use gateway_client::metrics::BlockTag;
use gateway_client::retry::Step;
use gateway_client::url::Url;

fn base(text: &str) -> Url {
    Url::parse(text).unwrap()
}

fn felt(last: u8) -> Felt {
    let mut bytes = [0u8; 32];
    bytes[30] = 0x01;
    bytes[31] = last;
    Felt(bytes)
}

fn params<'a>(client: &'a reqwest::Client) -> Request<'a, stage::Params> {
    Request::builder(client, base("https://example.com/feeder_gateway"), None).get_block()
}

#[test]
fn a_url_is_kept_in_normal_form() {
    assert_eq!(base("http://LOCALHOST").as_str(), "http://localhost/");
    assert_eq!(
        base("https://example.com/a/../b?x=1").as_str(),
        "https://example.com/b?x=1"
    );
    assert_eq!(base("unix:/run/foo.socket").as_str(), "unix:/run/foo.socket");
}

#[test]
fn what_is_no_base_url_is_refused() {
    assert!(Url::parse("not a url").is_none());
    assert!(Url::parse("/relative/path").is_none());
    assert!(Url::parse("").is_none());
    // These parse, but nothing can be appended to their paths.
    assert!(Url::parse("mailto:someone@example.com").is_none());
    assert!(Url::parse("data:text/plain,Stuff").is_none());
}

#[test]
fn segments_and_pairs_are_appended_encoded() {
    let url = base("https://example.com/api").push("a b/c");
    assert_eq!(url.as_str(), "https://example.com/api/a%20b%2Fc");
    let url = url.append_pair("k", "v w&x").append_pair("é", "1");
    assert_eq!(
        url.as_str(),
        "https://example.com/api/a%20b%2Fc?k=v+w%26x&%C3%A9=1"
    );
    assert_eq!(url.duplicate().as_str(), url.as_str());
}

#[test]
fn room_in_a_url_is_counted_in_bytes() {
    let url = base("https://example.com/");
    assert!(url.takes_segment("get_block"));
    assert!(url.takes_pair("blockNumber", "5"));
    let client = reqwest::Client::new();
    let request = Request::builder(&client, url, None);
    assert!(request.takes_method("get_block"));
    assert!(request.get_block().takes_param("blockNumber", "latest"));
}

#[test]
fn the_builder_keeps_what_it_is_given() {
    let client = reqwest::Client::new();
    let request = Request::builder(
        &client,
        base("https://example.com/gateway"),
        Some("key".to_owned()),
    );
    assert_eq!(request.url().as_str(), "https://example.com/gateway");
    assert_eq!(request.api_key(), &Some("key".to_owned()));
    assert!(std::ptr::eq(request.client(), &client));
}

#[test]
fn each_method_is_the_last_segment_of_the_path() {
    let methods = Request::<stage::Method>::methods();
    assert_eq!(
        methods,
        vec![
            "add_transaction",
            "get_block",
            "get_class_by_hash",
            "get_compiled_class_by_class_hash",
            "get_transaction",
            "get_state_update",
            "get_contract_addresses",
            "get_block_traces",
            "get_transaction_trace",
            "get_signature",
        ]
    );
    let client = reqwest::Client::new();
    let start = || Request::builder(&client, base("http://localhost:9545/gateway"), None);
    let built = vec![
        start().add_transaction(),
        start().get_block(),
        start().get_class_by_hash(),
        start().get_compiled_class_by_class_hash(),
        start().get_transaction(),
        start().get_state_update(),
        start().get_contract_addresses(),
        start().get_block_traces(),
        start().get_transaction_trace(),
        start().get_signature(),
    ];
    for (request, method) in built.iter().zip(methods) {
        assert_eq!(
            request.url().as_str(),
            format!("http://localhost:9545/gateway/{}", method)
        );
        assert_eq!(request.state().meta.method, method);
        assert_eq!(request.state().meta.tag, BlockTag::NoTag);
    }
}

#[test]
fn a_method_follows_a_trailing_slash() {
    let client = reqwest::Client::new();
    let request = Request::builder(&client, base("http://localhost/"), None).get_block();
    assert_eq!(request.url().as_str(), "http://localhost/get_block");
    let request = Request::builder(&client, base("http://localhost/gateway/"), None).get_block();
    assert_eq!(request.url().as_str(), "http://localhost/gateway//get_block");
}

#[test]
fn a_block_number_goes_under_block_number() {
    let client = reqwest::Client::new();
    let request = params(&client).with_block(BlockId::Number(BlockNumber::new(5)));
    assert_eq!(
        request.url().as_str(),
        "https://example.com/feeder_gateway/get_block?blockNumber=5"
    );
    assert_eq!(request.state().meta.tag, BlockTag::NoTag);
    let request = params(&client).with_block(BlockNumber::new(u64::MAX).into());
    assert_eq!(
        request.url().as_str(),
        "https://example.com/feeder_gateway/get_block?blockNumber=18446744073709551615"
    );
}

#[test]
fn a_block_hash_goes_under_block_hash() {
    let client = reqwest::Client::new();
    let request = params(&client).with_block(BlockId::Hash(BlockHash(felt(0x23))));
    assert_eq!(
        request.url().as_str(),
        "https://example.com/feeder_gateway/get_block?blockHash=0x123"
    );
    assert_eq!(request.state().meta.tag, BlockTag::NoTag);
    let request = params(&client).with_block(BlockHash(Felt([0; 32])).into());
    assert_eq!(
        request.url().as_str(),
        "https://example.com/feeder_gateway/get_block?blockHash=0x0"
    );
}

#[test]
fn symbolic_blocks_go_under_block_number_and_set_the_tag() {
    let client = reqwest::Client::new();
    let request = params(&client).with_block(BlockId::Latest);
    assert_eq!(
        request.url().as_str(),
        "https://example.com/feeder_gateway/get_block?blockNumber=latest"
    );
    assert_eq!(request.state().meta.tag, BlockTag::Latest);
    assert_eq!(request.state().meta.method, "get_block");
    let request = params(&client).with_block(BlockId::Pending);
    assert_eq!(
        request.url().as_str(),
        "https://example.com/feeder_gateway/get_block?blockNumber=pending"
    );
    assert_eq!(request.state().meta.tag, BlockTag::Pending);
}

#[test]
fn a_later_block_sets_the_tag_anew() {
    let client = reqwest::Client::new();
    let request = params(&client)
        .with_block(BlockId::Latest)
        .with_block(BlockId::Number(BlockNumber::new(7)));
    assert_eq!(
        request.url().as_str(),
        "https://example.com/feeder_gateway/get_block?blockNumber=latest&blockNumber=7"
    );
    assert_eq!(request.state().meta.tag, BlockTag::NoTag);
}

#[test]
fn block_parameters_by_themselves() {
    assert_eq!(
        BlockId::Number(BlockNumber(5)).to_param(),
        ("blockNumber", "5".to_owned(), BlockTag::NoTag)
    );
    assert_eq!(
        BlockId::Hash(BlockHash(felt(0xff))).to_param(),
        ("blockHash", "0x1ff".to_owned(), BlockTag::NoTag)
    );
    assert_eq!(
        BlockId::Latest.to_param(),
        ("blockNumber", "latest".to_owned(), BlockTag::Latest)
    );
    assert_eq!(
        BlockId::Pending.to_param(),
        ("blockNumber", "pending".to_owned(), BlockTag::Pending)
    );
    assert_eq!(BlockNumber::new(9).get(), 9);
    assert_eq!(BlockTag::NoTag.as_str(), None);
    assert_eq!(BlockTag::Latest.as_str(), Some("latest"));
    assert_eq!(BlockTag::Pending.as_str(), Some("pending"));
}

#[test]
fn hashes_are_added_in_hex() {
    let client = reqwest::Client::new();
    let request = params(&client)
        .with_class_hash(ClassHash(felt(0x00)))
        .with_transaction_hash(TransactionHash(felt(0xab)));
    assert_eq!(
        request.url().as_str(),
        "https://example.com/feeder_gateway/get_block?classHash=0x100&transactionHash=0x1ab"
    );
    assert_eq!(request.state().meta.tag, BlockTag::NoTag);
}

#[test]
fn a_token_is_added_only_where_there_is_one() {
    let client = reqwest::Client::new();
    let request = params(&client).with_optional_token(None);
    assert_eq!(
        request.url().as_str(),
        "https://example.com/feeder_gateway/get_block"
    );
    let request = request.with_optional_token(Some("s3cr3t"));
    assert_eq!(
        request.url().as_str(),
        "https://example.com/feeder_gateway/get_block?token=s3cr3t"
    );
}

#[test]
fn parameters_keep_their_order_and_the_tag_can_be_set() {
    let client = reqwest::Client::new();
    let request = params(&client)
        .add_param("a", "1")
        .update_tag(BlockTag::Pending)
        .add_param("b", "x y")
        .add_param("a", "2");
    assert_eq!(
        request.url().as_str(),
        "https://example.com/feeder_gateway/get_block?a=1&b=x+y&a=2"
    );
    assert_eq!(request.state().meta.tag, BlockTag::Pending);
    assert_eq!(request.state().meta.method, "get_block");
}

#[test]
fn the_retry_flag_is_fixed_in_the_final_stage() {
    let client = reqwest::Client::new();
    let request = params(&client)
        .with_block(BlockId::Latest)
        .with_retry(true);
    assert!(request.state().retry);
    assert_eq!(request.state().meta.tag, BlockTag::Latest);
    assert_eq!(request.state().meta.method, "get_block");
    assert_eq!(
        request.url().as_str(),
        "https://example.com/feeder_gateway/get_block?blockNumber=latest"
    );
    assert!(!params(&client).with_retry(false).state().retry);
}

fn with_fake_api_key<'a>(
    client: &'a reqwest::Client,
    gateway: &str,
    api_key: &str,
) -> Request<'a, stage::Final> {
    Request::builder(client, base(gateway), Some(api_key.to_owned()))
        .get_block()
        .with_retry(false)
}

fn bypass(api_key: &str) -> Option<gateway_client::builder::Header> {
    Some(gateway_client::builder::Header {
        name: "X-Throttling-Bypass",
        value: api_key.to_owned(),
    })
}

#[test]
fn get() {
    let client = reqwest::Client::new();
    let api_key = "a fake key";
    for gateway in ["http://localhost/gateway", "http://localhost/feeder_gateway"] {
        let mut call = with_fake_api_key(&client, gateway, api_key).get();
        let attempt = call.attempt();
        assert_eq!(attempt.header, bypass(api_key));
        assert_eq!(attempt.verb, Verb::Get);
        assert_eq!(attempt.json, None);
        assert_eq!(attempt.url, format!("{}/get_block", gateway));
        assert_eq!(call.payload(), Payload::Json);
        // A success ends the call: one attempt for one call.
        assert_eq!(call.after(&Ok::<(), SequencerError>(())), Step::Return);
    }
}

#[test]
fn get_as_bytes() {
    let client = reqwest::Client::new();
    let api_key = "a fake key";
    for gateway in ["http://localhost/gateway", "http://localhost/feeder_gateway"] {
        let mut call = with_fake_api_key(&client, gateway, api_key).get_as_bytes();
        let attempt = call.attempt();
        assert_eq!(attempt.header, bypass(api_key));
        assert_eq!(attempt.verb, Verb::Get);
        assert_eq!(attempt.json, None);
        assert_eq!(call.payload(), Payload::Bytes);
        // A success ends the call: one attempt for one call.
        assert_eq!(call.after(&Ok::<(), SequencerError>(())), Step::Return);
    }
}

#[test]
fn post_with_json() {
    let client = reqwest::Client::new();
    let api_key = "a fake key";
    for gateway in ["http://localhost/gateway", "http://localhost/feeder_gateway"] {
        let mut call =
            with_fake_api_key(&client, gateway, api_key).post_with_json("{}".to_owned());
        let attempt = call.attempt();
        assert_eq!(attempt.header, bypass(api_key));
        assert_eq!(attempt.verb, Verb::Post);
        assert_eq!(attempt.json, Some("{}".to_owned()));
        assert_eq!(call.payload(), Payload::Json);
        // A success ends the call: one attempt for one call.
        assert_eq!(call.after(&Ok::<(), SequencerError>(())), Step::Return);
    }
}

#[test]
fn the_header_has_its_name() {
    assert_eq!(X_THROTTLING_BYPASS, "X-Throttling-Bypass");
}

#[test]
fn without_a_key_there_is_no_header() {
    let client = reqwest::Client::new();
    let call = params(&client).with_retry(true).get();
    assert_eq!(call.attempt().header, None);
}

fn timeout() -> Result<(), SequencerError> {
    Err(SequencerError::ReqwestError(TransportError {
        kind: TransportKind::Request,
        connect: false,
        timeout: true,
    }))
}

#[test]
fn every_attempt_is_the_same_and_carries_the_key() {
    let client = reqwest::Client::new();
    let mut call = Request::builder(
        &client,
        base("http://localhost/gateway"),
        Some("key".to_owned()),
    )
    .add_transaction()
    .with_block(BlockId::Pending)
    .with_retry(true)
    .post_with_json(r#"{"version":"0x1"}"#.to_owned());
    assert!(call.retry());
    let mut delays = Vec::new();
    for _ in 0..6 {
        let attempt = call.attempt();
        assert!(std::ptr::eq(attempt.client, &client));
        assert_eq!(attempt.verb, Verb::Post);
        assert_eq!(
            attempt.url,
            "http://localhost/gateway/add_transaction?blockNumber=pending"
        );
        assert_eq!(attempt.header, bypass("key"));
        assert_eq!(attempt.json, Some(r#"{"version":"0x1"}"#.to_owned()));
        assert_eq!(attempt.meta.method, "add_transaction");
        assert_eq!(attempt.meta.tag, BlockTag::Pending);
        match call.after(&timeout()) {
            Step::Sleep(seconds) => delays.push(seconds),
            Step::Return => panic!("a timeout is retried"),
        }
    }
    assert_eq!(delays, vec![2, 30, 450, 600, 600, 600]);
    assert_eq!(call.after(&Ok::<(), SequencerError>(())), Step::Return);
}

#[test]
fn without_retries_every_outcome_is_returned_at_once() {
    let client = reqwest::Client::new();
    let mut call = params(&client).with_retry(false).get();
    assert!(!call.retry());
    assert_eq!(call.after(&timeout()), Step::Return);
    assert_eq!(
        call.after(&Err::<(), _>(SequencerError::InvalidStarknetErrorVariant)),
        Step::Return
    );
    assert_eq!(call.after(&Ok::<u8, SequencerError>(1)), Step::Return);
}

#[test]
fn an_error_of_the_gateway_is_returned_at_once() {
    let client = reqwest::Client::new();
    let mut call = params(&client).with_retry(true).get();
    let error = SequencerError::StarknetError(StarknetError {
        code: "StarknetErrorCode.BLOCK_NOT_FOUND".to_owned(),
        message: "Block not found".to_owned(),
    });
    assert_eq!(call.after(&timeout()), Step::Sleep(2));
    assert_eq!(call.after(&Err::<(), _>(error)), Step::Return);
    // The pause that is due did not grow in between.
    assert_eq!(call.after(&timeout()), Step::Sleep(30));
}

#[test]
fn what_comes_out_parses_again() {
    let inputs = [
        "http://LOCALHOST",
        "https://user:pw@Example.COM:443/a/./b/../c?x=1&y=2#frag",
        "https://example.com/a b?q=\u{e4} \u{f6}#\u{fc}",
        "unix:/run/foo.socket",
        "file:///tmp/x",
        "foo://host",
    ];
    for input in inputs {
        let url = base(input);
        assert_eq!(base(url.as_str()).as_str(), url.as_str());
        let url = url.push("get block/%2F..");
        assert_eq!(base(url.as_str()).as_str(), url.as_str());
        let url = url.append_pair("block Number", "1 + 1 = 2 & \u{e4}#?");
        assert_eq!(base(url.as_str()).as_str(), url.as_str());
        let url = url.append_pair("", "");
        assert_eq!(base(url.as_str()).as_str(), url.as_str());
    }
    assert_eq!(
        base("https://example.com/a?x=1#frag")
            .push("b")
            .append_pair("y", "2")
            .as_str(),
        "https://example.com/a/b?x=1&y=2#frag"
    );
}

#[test]
fn a_text_need_not_parse_to_itself() {
    // A drive letter behind a host is written out as it was read, and read
    // without the host the next time.
    let url = base("file://host//C:");
    assert_eq!(url.as_str(), "file://host/C:");
    assert_eq!(base(url.as_str()).as_str(), "file:///C:");
    // Every edit reads the text anew.
    assert_eq!(url.push("x").as_str(), "file:///C:/x");

    let url = base("file://host/").push("C:");
    assert_eq!(url.as_str(), "file://host/C:");
    assert!(url.takes_pair("a", "1"));
    assert_eq!(url.append_pair("a", "1").as_str(), "file:///C:?a=1");
}

#[test]
fn an_edit_is_tried_before_it_is_made() {
    let url = base("https://example.com/api");
    assert!(url.takes_segment("a b"));
    let url = url.try_push("a b").ok().unwrap();
    assert_eq!(url.as_str(), "https://example.com/api/a%20b");
    assert!(url.takes_pair("k", "v"));
    let url = url.try_append_pair("k", "v").ok().unwrap();
    assert_eq!(url.as_str(), "https://example.com/api/a%20b?k=v");
}

fn query_pairs(request: &Request<stage::Params>) -> Vec<(String, String)> {
    url::Url::parse(request.url().as_str())
        .unwrap()
        .query_pairs()
        .into_owned()
        .collect()
}

fn pair(name: &str, value: &str) -> (String, String) {
    (name.to_owned(), value.to_owned())
}

#[test]
fn a_block_adds_one_pair_to_an_empty_query() {
    let client = reqwest::Client::new();
    assert!(query_pairs(&params(&client)).is_empty());
    for last in [0x00u8, 0x01, 0x7f, 0xff] {
        let hash = BlockHash(felt(last));
        let request = params(&client).with_block(BlockId::Hash(hash));
        assert_eq!(
            query_pairs(&request),
            vec![pair("blockHash", &hash.0.to_hex_str())]
        );
        assert_eq!(request.state().meta.tag, BlockTag::NoTag);
    }
    let request = params(&client).with_block(BlockId::Number(BlockNumber::new(5)));
    assert_eq!(query_pairs(&request), vec![pair("blockNumber", "5")]);
    let request = params(&client).with_block(BlockId::Latest);
    assert_eq!(query_pairs(&request), vec![pair("blockNumber", "latest")]);
    let request = params(&client).with_block(BlockId::Pending);
    assert_eq!(query_pairs(&request), vec![pair("blockNumber", "pending")]);
}

#[test]
fn values_come_back_out_of_the_query_as_they_went_in() {
    let client = reqwest::Client::new();
    let request = params(&client)
        .add_param("a b", "1 + 1 = 2 & \u{e4}#?")
        .add_param("", "")
        .with_optional_token(Some("s3cr3t/=="));
    assert_eq!(
        query_pairs(&request),
        vec![
            pair("a b", "1 + 1 = 2 & \u{e4}#?"),
            pair("", ""),
            pair("token", "s3cr3t/=="),
        ]
    );
    let parsed = url::Url::parse(request.url().as_str()).unwrap();
    let segments: Vec<&str> = parsed.path_segments().unwrap().collect();
    assert_eq!(segments, vec!["feeder_gateway", "get_block"]);
}

#[test]
fn an_endpoint_is_selected_by_its_name() {
    let endpoints = [
        Endpoint::AddTransaction,
        Endpoint::GetBlock,
        Endpoint::GetClassByHash,
        Endpoint::GetCompiledClassByClassHash,
        Endpoint::GetTransaction,
        Endpoint::GetStateUpdate,
        Endpoint::GetContractAddresses,
        Endpoint::GetBlockTraces,
        Endpoint::GetTransactionTrace,
        Endpoint::GetSignature,
    ];
    let names: Vec<&str> = endpoints.iter().map(|e| e.name()).collect();
    assert_eq!(names, Request::<stage::Method>::methods());
    let client = reqwest::Client::new();
    for endpoint in endpoints {
        let request = Request::builder(&client, base("http://localhost/gateway"), None);
        assert!(request.takes_method(endpoint.name()));
        let request = request.select(endpoint).ok().unwrap();
        assert_eq!(
            request.url().as_str(),
            format!("http://localhost/gateway/{}", endpoint.name())
        );
        assert_eq!(request.state().meta.method, endpoint.name());
        assert_eq!(request.state().meta.tag, BlockTag::NoTag);
    }
}

#[test]
fn parameters_are_tried_before_they_are_added() {
    let client = reqwest::Client::new();
    let request = params(&client)
        .try_with_block(BlockId::Pending)
        .ok()
        .unwrap()
        .try_with_class_hash(ClassHash(felt(0x02)))
        .ok()
        .unwrap()
        .try_with_transaction_hash(TransactionHash(felt(0x03)))
        .ok()
        .unwrap()
        .try_with_optional_token(None)
        .ok()
        .unwrap()
        .try_with_optional_token(Some("t"))
        .ok()
        .unwrap()
        .try_add_param("a", "b")
        .ok()
        .unwrap();
    assert_eq!(
        request.url().as_str(),
        "https://example.com/feeder_gateway/get_block?blockNumber=pending&classHash=0x102&transactionHash=0x103&token=t&a=b"
    );
    assert_eq!(request.state().meta.tag, BlockTag::Pending);
}
