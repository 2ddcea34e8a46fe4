use realestate_client::api::listing::{collect_listings, parse_listings_result};
use realestate_client::models::paginated::{
    assemble_page, parse_search_result, DecodeError, Paginated,
};

fn listing_text(id: &str) -> String {
    [
        "{\"address\":{\"country\":\"CH\",\"geoCoordinates\":{\"latitude\":47.36667,",
        "\"longitude\":8.55},\"locality\":\"Z\u{fc}rich\",\"postalCode\":\"8001\",",
        "\"region\":\"ZH\",\"street\":\"Bahnhofstrasse 1\"},",
        "\"categories\":[\"APARTMENT\",\"FLAT\"],",
        "\"characteristics\":{\"livingSpace\":72,\"numberOfRooms\":3.5},",
        "\"id\":\"",
        id,
        "\",\"lister\":{\"phone\":\"+41 44 000 00 00\"},",
        "\"localization\":{\"de\":{\"attachments\":[{\"type\":\"IMAGE\",",
        "\"url\":\"https://media.example.test/1.jpg\",\"file\":\"1.jpg\"}],",
        "\"text\":{\"title\":\"Helle Wohnung\"}},\"primary\":\"de\"},",
        "\"offerType\":\"RENT\",",
        "\"prices\":{\"rent\":{\"interval\":\"MONTH\",\"net\":2100,\"gross\":2350,",
        "\"extra\":250},\"currency\":\"CHF\"}}",
    ]
    .concat()
}

#[test]
fn parse_result_2() {
    let text = [
        "{\"from\":0,\"maxFrom\":980,\"results\":[{\"id\":\"4001792114\",\"listing\":",
        &listing_text("4001792114"),
        "},{\"id\":\"4001792115\",\"listing\":",
        &listing_text("4001792115"),
        "}],\"size\":20,\"total\":1532}",
    ]
    .concat();
    let paginated_result = parse_search_result(&text).unwrap();
    assert!(paginated_result.total > 0);
    assert_eq!(paginated_result.from, 0);
    assert_eq!(paginated_result.max_from, 980);
    assert_eq!(paginated_result.size, 20);
    assert_eq!(paginated_result.total, 1532);
    assert_eq!(paginated_result.results.len(), 2);
    assert_eq!(paginated_result.results[0]["id"].as_str(), Some("4001792114"));
    assert_eq!(paginated_result.results[0]["listing"]["offerType"].as_str(), Some("RENT"));
    assert_eq!(
        paginated_result.results[0]["listing"]["prices"]["rent"]["gross"].as_u64(),
        Some(2350)
    );
    assert_eq!(paginated_result.results[1]["id"].as_str(), Some("4001792115"));
    assert_eq!(paginated_result.results[1]["listing"]["id"].as_str(), Some("4001792115"));
    assert!(paginated_result.check());
}

#[test]
fn a_text_that_is_no_json_is_a_decode_error() {
    assert_eq!(parse_search_result("not json").err(), Some(DecodeError::Syntax));
    assert_eq!(parse_search_result("").err(), Some(DecodeError::Syntax));
    assert_eq!(parse_search_result("{\"from\":0").err(), Some(DecodeError::Syntax));
    assert_eq!(parse_search_result("{} trailing").err(), Some(DecodeError::Syntax));
    assert_eq!(parse_listings_result("<html>").err(), Some(DecodeError::Syntax));
}

#[test]
fn a_page_that_lacks_a_member_is_a_decode_error() {
    assert_eq!(parse_search_result("{}").err(), Some(DecodeError::Shape));
    assert_eq!(parse_search_result("[]").err(), Some(DecodeError::Shape));
    assert_eq!(parse_search_result("null").err(), Some(DecodeError::Shape));
    assert_eq!(
        parse_search_result("{\"from\":0,\"maxFrom\":0,\"results\":[],\"size\":20}").err(),
        Some(DecodeError::Shape)
    );
    assert_eq!(
        parse_search_result("{\"from\":0,\"maxFrom\":0,\"results\":{},\"size\":20,\"total\":0}")
            .err(),
        Some(DecodeError::Shape)
    );
    assert_eq!(
        parse_search_result(
            "{\"from\":0,\"max_from\":0,\"results\":[],\"size\":20,\"total\":0}"
        )
        .err(),
        Some(DecodeError::Shape)
    );
}

#[test]
fn a_number_that_does_not_fit_is_a_decode_error() {
    assert_eq!(
        parse_search_result(
            "{\"from\":4294967296,\"maxFrom\":0,\"results\":[],\"size\":20,\"total\":0}"
        )
        .err(),
        Some(DecodeError::Shape)
    );
    assert_eq!(
        parse_search_result("{\"from\":-1,\"maxFrom\":0,\"results\":[],\"size\":20,\"total\":0}")
            .err(),
        Some(DecodeError::Shape)
    );
    assert_eq!(
        parse_search_result("{\"from\":0,\"maxFrom\":0,\"results\":[],\"size\":\"20\",\"total\":0}")
            .err(),
        Some(DecodeError::Shape)
    );
    let page = parse_search_result(
        "{\"from\":4294967295,\"maxFrom\":4294967295,\"results\":[],\"size\":1,\"total\":0}",
    )
    .unwrap();
    assert_eq!(page.from, 4294967295);
    assert_eq!(page.max_from, 4294967295);
}

#[test]
fn an_inconsistent_page_is_a_decode_error() {
    assert_eq!(
        parse_search_result("{\"from\":0,\"maxFrom\":0,\"results\":[1,2],\"size\":1,\"total\":2}")
            .err(),
        Some(DecodeError::Inconsistent)
    );
    assert_eq!(
        parse_search_result("{\"from\":0,\"maxFrom\":0,\"results\":[1,2],\"size\":2,\"total\":1}")
            .err(),
        Some(DecodeError::Inconsistent)
    );
    let page =
        parse_search_result("{\"from\":0,\"maxFrom\":0,\"results\":[1,2],\"size\":2,\"total\":2}")
            .unwrap();
    assert_eq!(page.results.len(), 2);
    assert!(page.results.len() <= page.size as usize);
    assert!(page.total as usize >= page.results.len());
}

#[test]
fn an_empty_page_is_a_page() {
    let page =
        parse_search_result("{\"from\":0,\"maxFrom\":0,\"results\":[],\"size\":0,\"total\":0}")
            .unwrap();
    assert!(page.results.is_empty());
    assert!(page.check());
}

#[test]
fn pages_are_assembled_from_their_members() {
    let page = assemble_page(Some(20), Some(980), Some(vec!['a', 'b']), Some(20), Some(22)).unwrap();
    assert_eq!(page.from, 20);
    assert_eq!(page.max_from, 980);
    assert_eq!(page.results, vec!['a', 'b']);
    assert_eq!(page.size, 20);
    assert_eq!(page.total, 22);
    assert_eq!(
        assemble_page::<char>(None, Some(0), Some(Vec::new()), Some(0), Some(0)).err(),
        Some(DecodeError::Shape)
    );
    assert_eq!(
        assemble_page::<char>(Some(0), Some(0), None, Some(0), Some(0)).err(),
        Some(DecodeError::Shape)
    );
    assert_eq!(
        assemble_page(None, Some(0), Some(vec![1, 2]), Some(1), Some(0)).err(),
        Some(DecodeError::Shape)
    );
    assert_eq!(
        assemble_page(Some(0), Some(0), Some(vec![1, 2]), Some(1), Some(5)).err(),
        Some(DecodeError::Inconsistent)
    );
    assert_eq!(
        assemble_page(Some(0), Some(0), Some(vec![1, 2]), Some(5), Some(1)).err(),
        Some(DecodeError::Inconsistent)
    );
}

#[test]
fn consistency_is_checked_on_any_page() {
    let page = Paginated { from: 0, max_from: 0, results: vec![1, 2, 3], size: 3, total: 3 };
    assert!(page.check());
    let page = Paginated { from: 0, max_from: 0, results: vec![1, 2, 3], size: 2, total: 3 };
    assert!(!page.check());
    let page = Paginated { from: 0, max_from: 0, results: vec![1, 2, 3], size: 3, total: 2 };
    assert!(!page.check());
}

#[test]
fn list_apartment() {
    let text =
        ["{\"listings\":[{\"listing\":", &listing_text("4001792114"), "}]}"].concat();
    let listings = parse_listings_result(&text).unwrap();
    assert_eq!(listings.len(), 1);
    assert_eq!(listings[0]["id"].as_str(), Some("4001792114"));
    assert_eq!(listings[0]["categories"][0].as_str(), Some("APARTMENT"));
    assert_eq!(listings[0]["characteristics"]["livingSpace"].as_u64(), Some(72));
}

#[test]
fn listings_keep_the_order_of_the_answer() {
    let text = "{\"listings\":[{\"listing\":{\"id\":\"b\"}},{\"listing\":{\"id\":\"a\"}},\
                {\"listing\":null,\"extra\":1}]}";
    let listings = parse_listings_result(text).unwrap();
    assert_eq!(listings.len(), 3);
    assert_eq!(listings[0]["id"].as_str(), Some("b"));
    assert_eq!(listings[1]["id"].as_str(), Some("a"));
    assert!(listings[2].is_null());
    assert_eq!(parse_listings_result("{\"listings\":[]}").unwrap().len(), 0);
}

#[test]
fn a_bundle_without_listings_is_a_decode_error() {
    assert_eq!(parse_listings_result("{}").err(), Some(DecodeError::Shape));
    assert_eq!(parse_listings_result("{\"listings\":7}").err(), Some(DecodeError::Shape));
    assert_eq!(
        parse_listings_result("{\"listings\":[{\"listing\":{}},{\"other\":{}}]}").err(),
        Some(DecodeError::Shape)
    );
    assert_eq!(parse_listings_result("{\"listings\":[3]}").err(), Some(DecodeError::Shape));
    assert_eq!(collect_listings(None).err(), Some(DecodeError::Shape));
    assert_eq!(collect_listings(Some(Vec::new())).unwrap().len(), 0);
}

#[test]
fn reach_is_checked_on_request_only() {
    let page =
        parse_search_result("{\"from\":5,\"maxFrom\":6,\"results\":[1,2],\"size\":2,\"total\":9}")
            .unwrap();
    assert!(page.check());
    assert!(!page.ends_in_reach());
    let page = Paginated { from: 4, max_from: 6, results: vec![1, 2], size: 2, total: 9 };
    assert!(page.ends_in_reach());
    let page = Paginated { from: 4294967295, max_from: 4294967295, results: vec![1], size: 1, total: 1 };
    assert!(!page.ends_in_reach());
    let page: Paginated<u8> =
        Paginated { from: 4294967295, max_from: 4294967295, results: Vec::new(), size: 1, total: 1 };
    assert!(page.ends_in_reach());
}
