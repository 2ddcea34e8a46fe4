use realestate_client::api::search::{
    default_search, search_body, FromTo, Location, LocaleTemplate, LocaleTextTemplate,
    LocaleUrlsTemplate, ListerTemplate, SearchRequest,
};
use realestate_client::models::listing::Category;
use realestate_client::models::realestate::OfferType;

fn text_of(parts: &[&str]) -> String {
    parts.concat()
}

fn default_text() -> String {
    text_of(&[
        "{\"from\":0,\"query\":{\"categories\":[\"APARTMENT\",\"MAISONETTE\",\"DUPLEX\",\"ATTIC_FLAT\",",
        "\"ROOF_FLAT\",\"STUDIO\",\"SINGLE_ROOM\",\"TERRACE_FLAT\",\"BACHELOR_FLAT\",\"LOFT\",\"ATTIC\"",
        ",\"ROW_HOUSE\",\"BIFAMILIAR_HOUSE\",\"TERRACE_HOUSE\",\"VILLA\",\"FARM_HOUSE\",\"CAVE_HOUSE",
        "\",\"CASTLE\",\"GRANNY_FLAT\",\"CHALET\",\"RUSTICO\",\"SINGLE_HOUSE\",\"HOBBY_ROOM\",\"CELLAR_",
        "COMPARTMENT\",\"ATTIC_COMPARTMENT\"],\"excludeCategories\":[\"FURNISHED_FLAT\"],\"living",
        "Space\":{\"from\":60},\"location\":{\"latitude\":47.359856,\"longitude\":8.541819,\"radius",
        "\":622},\"monthlyRent\":{\"from\":500},\"numberOfRooms\":{\"from\":2},\"offerType\":\"RENT\"}",
        ",\"resultTemplate\":{\"id\":true,\"listerBranding\":true,\"listing\":{\"address\":{\"countr",
        "y\":true,\"geoCoordinates\":{\"latitude\":true,\"longitude\":true},\"locality\":true,\"pos",
        "tOfficeBoxNumber\":true,\"postalCode\":true,\"region\":true,\"street\":true,\"streetAddi",
        "tion\":true},\"categories\":true,\"characteristics\":{\"livingSpace\":true,\"lotSize\":tr",
        "ue,\"numberOfRooms\":true,\"singleFloorSpace\":true,\"totalFloorSpace\":true},\"id\":tru",
        "e,\"lister\":{\"logoUrl\":false,\"phone\":true},\"localization\":{\"de\":{\"attachments\":tru",
        "e,\"text\":{\"title\":true},\"urls\":{\"type\":true}},\"en\":{\"attachments\":true,\"text\":{\"",
        "title\":true},\"urls\":{\"type\":true}},\"fr\":{\"attachments\":true,\"text\":{\"title\":true",
        "},\"urls\":{\"type\":true}},\"it\":{\"attachments\":true,\"text\":{\"title\":true},\"urls\":{\"",
        "type\":true}},\"primary\":true},\"offerType\":true,\"prices\":true},\"listingType\":true,",
        "\"remoteViewing\":true},\"size\":20,\"sortBy\":\"listingType\",\"sortDirection\":\"desc\",\"t",
        "rackTotalHits\":true}",
    ])
}

fn zurich_by_name_text() -> String {
    text_of(&[
        "{\"from\":0,\"query\":{\"categories\":[\"APARTMENT\",\"MAISONETTE\",\"DUPLEX\",\"ATTIC_FLAT\",",
        "\"ROOF_FLAT\",\"STUDIO\",\"SINGLE_ROOM\",\"TERRACE_FLAT\",\"BACHELOR_FLAT\",\"LOFT\",\"ATTIC\"",
        ",\"ROW_HOUSE\",\"BIFAMILIAR_HOUSE\",\"TERRACE_HOUSE\",\"VILLA\",\"FARM_HOUSE\",\"CAVE_HOUSE",
        "\",\"CASTLE\",\"GRANNY_FLAT\",\"CHALET\",\"RUSTICO\",\"SINGLE_HOUSE\",\"HOBBY_ROOM\",\"CELLAR_",
        "COMPARTMENT\",\"ATTIC_COMPARTMENT\"],\"excludeCategories\":[\"FURNISHED_FLAT\"],\"living",
        "Space\":{\"from\":60},\"location\":{\"geoTags\":[\"zurich\"]},\"monthlyRent\":{\"from\":500},",
        "\"numberOfRooms\":{\"from\":2},\"offerType\":\"RENT\"},\"resultTemplate\":{\"id\":true,\"list",
        "erBranding\":true,\"listing\":{\"address\":{\"country\":true,\"geoCoordinates\":{\"latitud",
        "e\":true,\"longitude\":true},\"locality\":true,\"postOfficeBoxNumber\":true,\"postalCode",
        "\":true,\"region\":true,\"street\":true,\"streetAddition\":true},\"categories\":true,\"cha",
        "racteristics\":{\"livingSpace\":true,\"lotSize\":true,\"numberOfRooms\":true,\"singleFlo",
        "orSpace\":true,\"totalFloorSpace\":true},\"id\":true,\"lister\":{\"logoUrl\":false,\"phone\"",
        ":true},\"localization\":{\"de\":{\"attachments\":true,\"text\":{\"title\":true},\"urls\":{\"t",
        "ype\":true}},\"en\":{\"attachments\":true,\"text\":{\"title\":true},\"urls\":{\"type\":true}}",
        ",\"fr\":{\"attachments\":true,\"text\":{\"title\":true},\"urls\":{\"type\":true}},\"it\":{\"att",
        "achments\":true,\"text\":{\"title\":true},\"urls\":{\"type\":true}},\"primary\":true},\"offe",
        "rType\":true,\"prices\":true},\"listingType\":true,\"remoteViewing\":true},\"size\":20,\"s",
        "ortBy\":\"listingType\",\"sortDirection\":\"desc\",\"trackTotalHits\":true}",
    ])
}

fn encoded(request: &SearchRequest) -> serde_json::Value {
    serde_json::from_str(&request.to_json()).unwrap()
}

#[test]
fn create_json() {
    let req = default_search();
    let text = req.to_json();
    assert_eq!(text, default_text());
    let decoded: serde_json::Value = serde_json::from_str(&text).unwrap();
    assert_eq!(decoded["from"].as_i64(), Some(0));
    assert_eq!(decoded["size"].as_i64(), Some(20));
    assert_eq!(decoded["sortBy"].as_str(), Some("listingType"));
    assert_eq!(decoded["sortDirection"].as_str(), Some("desc"));
    assert_eq!(decoded["trackTotalHits"].as_bool(), Some(true));
    assert_eq!(decoded["query"]["offerType"].as_str(), Some("RENT"));
    assert_eq!(decoded["query"]["categories"].as_array().unwrap().len(), 25);
    assert_eq!(decoded["query"]["location"]["radius"].as_u64(), Some(622));
    assert_eq!(decoded["query"]["location"]["latitude"].as_f64(), Some(47.359856));
    assert_eq!(decoded["query"]["location"]["longitude"].as_f64(), Some(8.541819));
}

#[test]
fn the_written_default_reads_back_as_the_default() {
    let req = default_search();
    let decoded: serde_json::Value = serde_json::from_str(&default_text()).unwrap();
    let categories: Vec<Category> = decoded["query"]["categories"]
        .as_array()
        .unwrap()
        .iter()
        .map(|tag| Category::from_tag(tag.as_str().unwrap()).unwrap())
        .collect();
    assert_eq!(categories, req.query.categories);
    let excluded: Vec<Category> = decoded["query"]["excludeCategories"]
        .as_array()
        .unwrap()
        .iter()
        .map(|tag| Category::from_tag(tag.as_str().unwrap()).unwrap())
        .collect();
    assert_eq!(excluded, req.query.exclude_categories);
    let range = |key: &str| FromTo {
        from: decoded["query"][key]["from"].as_u64().map(|n| n as u32),
        to: decoded["query"][key]["to"].as_u64().map(|n| n as u32),
    };
    assert_eq!(range("livingSpace"), req.query.living_space);
    assert_eq!(range("monthlyRent"), req.query.monthly_rent);
    assert_eq!(range("numberOfRooms"), req.query.number_of_rooms);
    assert_eq!(decoded["from"].as_i64(), Some(i64::from(req.from)));
    assert_eq!(decoded["size"].as_i64(), Some(i64::from(req.size)));
    assert_eq!(decoded["sortBy"].as_str(), Some(req.sort_by.as_str()));
    assert_eq!(decoded["sortDirection"].as_str(), Some(req.sort_direction.as_str()));
    assert_eq!(decoded["trackTotalHits"].as_bool(), Some(req.track_total_hits));
    let template = &decoded["resultTemplate"];
    assert_eq!(template["id"].as_bool(), Some(req.result_template.id));
    assert_eq!(
        template["listing"]["lister"]["logoUrl"].as_bool(),
        Some(req.result_template.listing.lister.logo_url)
    );
    assert_eq!(
        template["listing"]["lister"]["phone"].as_bool(),
        Some(req.result_template.listing.lister.phone)
    );
    assert_eq!(
        template["listing"]["localization"]["it"]["urls"]["type"].as_bool(),
        Some(req.result_template.listing.localization.it.urls.t)
    );
}

#[test]
fn default_search_is_well_formed() {
    let req = default_search();
    assert!(req.is_valid());
    assert_eq!(req.from, 0);
    assert_eq!(req.size, 20);
    assert_eq!(req.query.categories.len(), 25);
    assert_eq!(req.query.categories[0], Category::Apartment);
    assert_eq!(req.query.categories[24], Category::AtticCompartment);
    assert_eq!(req.query.exclude_categories, vec![Category::FurnishedFlat]);
    assert_eq!(req.query.living_space, FromTo { from: Some(60), to: None });
    assert_eq!(req.query.monthly_rent, FromTo { from: Some(500), to: None });
    assert_eq!(req.query.number_of_rooms, FromTo { from: Some(2), to: None });
    assert_eq!(req.query.offer_type, OfferType::RENT);
    assert_eq!(req.query.location, Location::around(47359856, 8541819, 622));
    assert_eq!(req.result_template.listing.lister, ListerTemplate { logo_url: false, phone: true });
    let address = req.result_template.listing.address;
    assert!(address.country && address.locality && address.post_office_box_number);
    assert!(address.postal_code && address.region && address.street && address.street_addition);
    assert!(address.geo_coordinates.latitude && address.geo_coordinates.longitude);
    assert!(req.result_template.id && req.result_template.lister_branding);
    assert!(req.result_template.listing_type && req.result_template.remote_viewing);
    assert!(req.result_template.listing.categories && req.result_template.listing.prices);
    let locale = LocaleTemplate {
        attachments: true,
        text: LocaleTextTemplate { title: true },
        urls: LocaleUrlsTemplate { t: true },
    };
    assert_eq!(req.result_template.listing.localization.de, locale);
    assert_eq!(req.result_template.listing.localization.it, locale);
}

#[test]
fn requests_before_the_first_result_or_without_room_are_invalid() {
    let mut req = default_search();
    req.from = -1;
    assert!(!req.is_valid());
    let mut req = default_search();
    req.size = 0;
    assert!(!req.is_valid());
    let mut req = default_search();
    req.from = 40;
    req.size = 1;
    assert!(req.is_valid());
}

#[test]
fn negative_numbers_are_written_with_their_sign() {
    let mut req = default_search();
    req.from = -2147483648;
    req.size = -7;
    let decoded = encoded(&req);
    assert_eq!(decoded["from"].as_i64(), Some(-2147483648));
    assert_eq!(decoded["size"].as_i64(), Some(-7));
}

#[test]
fn unset_ranges_are_absent_after_a_round_trip() {
    let mut req = default_search();
    req.query.living_space = FromTo { from: None, to: None };
    req.query.monthly_rent = FromTo { from: None, to: None };
    req.query.number_of_rooms = FromTo { from: None, to: None };
    let text = req.to_json();
    assert!(text.contains("\"livingSpace\":{}"));
    assert!(text.contains("\"monthlyRent\":{}"));
    assert!(text.contains("\"numberOfRooms\":{}"));
    assert!(!text.contains("null"));
    let decoded: serde_json::Value = serde_json::from_str(&text).unwrap();
    for key in ["livingSpace", "monthlyRent", "numberOfRooms"] {
        let range = decoded["query"][key].as_object().unwrap();
        assert!(range.is_empty());
        assert!(range.get("from").is_none());
        assert!(range.get("to").is_none());
    }
}

#[test]
fn ranges_keep_the_ends_that_are_set() {
    let mut out = String::new();
    FromTo { from: Some(60), to: None }.push_json(&mut out);
    assert_eq!(out, "{\"from\":60}");
    let mut out = String::new();
    FromTo { from: None, to: Some(4294967295) }.push_json(&mut out);
    assert_eq!(out, "{\"to\":4294967295}");
    let mut out = String::from("x");
    FromTo { from: Some(0), to: Some(12) }.push_json(&mut out);
    assert_eq!(out, "x{\"from\":0,\"to\":12}");
    let mut out = String::new();
    FromTo { from: None, to: None }.push_json(&mut out);
    assert_eq!(out, "{}");
}

#[test]
fn categories_are_sent_as_their_tags_in_order() {
    let mut req = default_search();
    req.query.categories = vec![Category::Apartment, Category::Studio];
    let text = req.to_json();
    assert!(text.contains("\"categories\":[\"APARTMENT\",\"STUDIO\"],"));
    let decoded: serde_json::Value = serde_json::from_str(&text).unwrap();
    let tags = decoded["query"]["categories"].as_array().unwrap();
    assert_eq!(tags.len(), 2);
    assert_eq!(tags[0].as_str(), Some("APARTMENT"));
    assert_eq!(tags[1].as_str(), Some("STUDIO"));
    req.query.categories = vec![Category::Studio, Category::Apartment];
    assert!(req.to_json().contains("\"categories\":[\"STUDIO\",\"APARTMENT\"],"));
    req.query.categories = Vec::new();
    assert!(req.to_json().contains("\"categories\":[],"));
}

#[test]
fn category_tags_match_the_vocabulary() {
    assert_eq!(Category::Flat.to_string(), "FLAT");
    assert_eq!(Category::AtticFlat.to_string(), "ATTIC_FLAT");
    assert_eq!(Category::BifamiliarHouse.tag(), "BIFAMILIAR_HOUSE");
    assert_eq!(Category::CellarCompartment.tag(), "CELLAR_COMPARTMENT");
    assert_eq!(Category::FurnishedFlat.tag(), "FURNISHED_FLAT");
    assert_eq!(
        Category::ResidentialCommercialBuilding.to_string(),
        "RESIDENTIAL_COMMERCIAL_BUILDING"
    );
    assert_eq!(OfferType::RENT.tag(), "RENT");
    assert_eq!(OfferType::BUY.tag(), "BUY");
    assert_eq!(OfferType::default(), OfferType::RENT);
}

#[test]
fn named_areas_hide_the_point() {
    let location =
        Location::around(47366670, 8550000, 1000).with_geo_tags(vec![String::from("zurich")]);
    let request = default_search().with_location(location.clone());
    let text = request.to_json();
    assert_eq!(text, zurich_by_name_text());
    assert!(!text.contains("\"latitude\":4"));
    assert!(!text.contains("\"longitude\":8"));
    assert!(!text.contains("radius"));
    let decoded: serde_json::Value = serde_json::from_str(&text).unwrap();
    let sent = decoded["query"]["location"].as_object().unwrap();
    assert_eq!(sent.len(), 1);
    assert!(sent.get("latitude").is_none());
    assert!(sent.get("longitude").is_none());
    assert!(sent.get("radius").is_none());
    assert_eq!(sent["geoTags"][0].as_str(), Some("zurich"));
    let elsewhere = Location::around(1, -2, 3).with_geo_tags(vec![String::from("zurich")]);
    assert_eq!(search_body(elsewhere), search_body(location));
}

#[test]
fn a_point_is_sent_in_millionths() {
    let mut out = String::new();
    Location::around(47366670, 8550000, 1000).push_json(&mut out);
    assert_eq!(out, "{\"latitude\":47.36667,\"longitude\":8.55,\"radius\":1000}");
    let mut out = String::new();
    Location::around(-1, -33868820, 0).push_json(&mut out);
    assert_eq!(out, "{\"latitude\":-0.000001,\"longitude\":-33.86882,\"radius\":0}");
    let mut out = String::new();
    Location::around(-2147483648, 2147483647, 4294967295).push_json(&mut out);
    assert_eq!(
        out,
        "{\"latitude\":-2147.483648,\"longitude\":2147.483647,\"radius\":4294967295}"
    );
}

#[test]
fn area_names_are_escaped() {
    let mut out = String::new();
    Location::around(0, 0, 0)
        .with_geo_tags(vec![String::from("a\"b\\c"), String::from("z\u{fc}ri\nch\u{1}\t")])
        .push_json(&mut out);
    assert_eq!(out, "{\"geoTags\":[\"a\\\"b\\\\c\",\"z\u{fc}ri\\nch\\u0001\\t\"]}");
    let decoded: serde_json::Value = serde_json::from_str(&out).unwrap();
    assert_eq!(decoded["geoTags"][0].as_str(), Some("a\"b\\c"));
    assert_eq!(decoded["geoTags"][1].as_str(), Some("z\u{fc}ri\nch\u{1}\t"));
}

#[test]
fn search_body_is_the_default_at_the_location() {
    let location = Location::around(47366670, 8550000, 1000);
    let body = search_body(location.clone());
    let request = default_search().with_location(location);
    assert_eq!(body, request.to_json());
    assert_eq!(search_body(default_search().query.location), default_text());
    let decoded: serde_json::Value = serde_json::from_str(&body).unwrap();
    assert_eq!(decoded["query"]["location"]["radius"].as_u64(), Some(1000));
    assert_eq!(decoded["query"]["location"]["latitude"].as_f64(), Some(47.36667));
}

#[test]
fn with_location_changes_nothing_else() {
    let before = default_search();
    let after = default_search().with_location(Location::around(1, 2, 3));
    assert_eq!(after.query.location, Location::around(1, 2, 3));
    assert_eq!(after.from, before.from);
    assert_eq!(after.size, before.size);
    assert_eq!(after.query.categories, before.query.categories);
    assert_eq!(after.query.exclude_categories, before.query.exclude_categories);
    assert_eq!(after.query.living_space, before.query.living_space);
    assert_eq!(after.result_template, before.result_template);
    assert_eq!(after.sort_by, before.sort_by);
    assert_eq!(after.sort_direction, before.sort_direction);
    assert_eq!(after.track_total_hits, before.track_total_hits);
}

#[test]
fn categories_are_found_by_their_tags() {
    assert_eq!(Category::from_tag("APARTMENT"), Some(Category::Apartment));
    assert_eq!(Category::from_tag("STUDIO"), Some(Category::Studio));
    assert_eq!(
        Category::from_tag("RESIDENTIAL_COMMERCIAL_BUILDING"),
        Some(Category::ResidentialCommercialBuilding)
    );
    assert_eq!(Category::from_tag("apartment"), None);
    assert_eq!(Category::from_tag("Apartment"), None);
    assert_eq!(Category::from_tag(""), None);
    assert_eq!(Category::from_tag("PALACE"), None);
    for category in default_search().query.categories {
        assert_eq!(Category::from_tag(category.tag()), Some(category));
        assert_eq!(Category::from_tag(&category.to_string()), Some(category));
    }
}

#[test]
fn with_filters_changes_the_filters_only() {
    let before = default_search();
    let after = default_search().with_filters(
        vec![Category::Villa],
        Vec::new(),
        FromTo { from: None, to: Some(200) },
        FromTo { from: None, to: None },
        FromTo { from: Some(5), to: Some(7) },
        OfferType::BUY,
    );
    assert_eq!(after.query.location, before.query.location);
    assert_eq!(after.from, before.from);
    assert_eq!(after.size, before.size);
    assert_eq!(after.result_template, before.result_template);
    assert_eq!(after.sort_by, before.sort_by);
    let text = after.to_json();
    assert!(text.contains(
        "\"query\":{\"categories\":[\"VILLA\"],\"excludeCategories\":[],\"livingSpace\":{\"to\":200},"
    ));
    assert!(text.contains(
        "\"monthlyRent\":{},\"numberOfRooms\":{\"from\":5,\"to\":7},\"offerType\":\"BUY\"}"
    ));
}

#[test]
fn the_default_search_leaves_out_the_logo_only() {
    let text = default_search().to_json();
    assert!(text.contains("\"lister\":{\"logoUrl\":false,\"phone\":true}"));
    assert_eq!(text.matches("false").count(), 1);
    let decoded: serde_json::Value = serde_json::from_str(&text).unwrap();
    let lister = &decoded["resultTemplate"]["listing"]["lister"];
    assert_eq!(lister["logoUrl"].as_bool(), Some(false));
    assert_eq!(lister["phone"].as_bool(), Some(true));
    let address = decoded["resultTemplate"]["listing"]["address"].as_object().unwrap();
    assert_eq!(address.len(), 8);
    for (key, flag) in address {
        if key == "geoCoordinates" {
            assert_eq!(flag["latitude"].as_bool(), Some(true));
            assert_eq!(flag["longitude"].as_bool(), Some(true));
        } else {
            assert_eq!(flag.as_bool(), Some(true));
        }
    }
}
