//! Search requests: the filter, the template that selects what comes back,
//! and the JSON text in which both are sent.

use vstd::prelude::*;
use vstd::string::*;
use crate::models::listing::Category;
use crate::models::realestate::OfferType;
use crate::json::json_string;
use crate::text::{
    array, begin_member, begin_object, bool_member, bool_text, decimal, end_object, joined,
    lemma_joined_push, lemma_member_done, member, millionths, object, push_char, push_decimal,
    push_json_string, push_key, push_millionths, push_signed_decimal, signed_decimal,
};

verus! {

/// A range of numbers; either end may be left open.
#[derive(Debug, Clone, Copy, PartialEq, Eq, Structural)]
pub struct FromTo {
    pub from: Option<u32>,
    pub to: Option<u32>,
}

impl FromTo {
    /// The JSON object of this range. An open end has no member at all: the
    /// service reads a missing member as "no bound".
    pub open spec fn json(self) -> Seq<char> {
        let from: Seq<char> = match self.from {
            Some(v) => member("from"@, decimal(v as nat)),
            None => Seq::empty(),
        };
        let to: Seq<char> = match self.to {
            Some(v) => member("to"@, decimal(v as nat)),
            None => Seq::empty(),
        };
        let between: Seq<char> = if self.from is Some && self.to is Some {
            seq![',']
        } else {
            Seq::empty()
        };
        seq!['{'] + from + between + to + seq!['}']
    }

    /// Appends this range's JSON object to `out`.
    pub fn push_json(&self, out: &mut String)
        ensures
            final(out)@ == old(out)@ + self.json(),
    {
        push_char(out, '{');
        match self.from {
            Some(v) => {
                push_key(out, "from");
                push_decimal(out, v as u64);
            },
            None => {},
        }
        match self.to {
            Some(v) => {
                if self.from.is_some() {
                    push_char(out, ',');
                }
                push_key(out, "to");
                push_decimal(out, v as u64);
            },
            None => {},
        }
        push_char(out, '}');
        assert(out@ =~= old(out)@ + self.json());
    }
}

/// The JSON string literals of the names `tags`, in their order.
pub open spec fn tag_texts(tags: Seq<String>) -> Seq<Seq<char>> {
    Seq::new(tags.len(), |i: int| json_string(tags[i]@))
}

/// The JSON string literals of the tags of `categories`, in their order.
pub open spec fn category_texts(categories: Seq<Category>) -> Seq<Seq<char>> {
    Seq::new(categories.len(), |i: int| json_string(categories[i].tag_text()))
}

/// Appends the JSON array of the tags of `categories` to `out`.
pub fn push_categories(out: &mut String, categories: &Vec<Category>)
    ensures
        final(out)@ == old(out)@ + array(category_texts(categories@)),
{
    push_char(out, '[');
    let ghost texts = category_texts(categories@);
    let mut i: usize = 0;
    while i < categories.len()
        invariant
            i <= categories.len(),
            texts == category_texts(categories@),
            out@ == old(out)@ + seq!['['] + joined(texts.take(i as int)),
        decreases categories.len() - i,
    {
        if i > 0 {
            push_char(out, ',');
        }
        push_json_string(out, categories[i].tag());
        proof {
            lemma_joined_push(texts.take(i as int), texts[i as int]);
            assert(texts.take(i + 1) =~= texts.take(i as int).push(texts[i as int]));
            assert(out@ =~= old(out)@ + seq!['['] + joined(texts.take(i + 1)));
        }
        i = i + 1;
    }
    push_char(out, ']');
    assert(texts.take(i as int) =~= texts);
    assert(out@ =~= old(out)@ + array(texts));
}

/// Appends the JSON array of the names `tags` to `out`.
pub fn push_tags(out: &mut String, tags: &Vec<String>)
    ensures
        final(out)@ == old(out)@ + array(tag_texts(tags@)),
{
    push_char(out, '[');
    let ghost texts = tag_texts(tags@);
    let mut i: usize = 0;
    while i < tags.len()
        invariant
            i <= tags.len(),
            texts == tag_texts(tags@),
            out@ == old(out)@ + seq!['['] + joined(texts.take(i as int)),
        decreases tags.len() - i,
    {
        if i > 0 {
            push_char(out, ',');
        }
        push_json_string(out, tags[i].as_str());
        proof {
            lemma_joined_push(texts.take(i as int), texts[i as int]);
            assert(texts.take(i + 1) =~= texts.take(i as int).push(texts[i as int]));
            assert(out@ =~= old(out)@ + seq!['['] + joined(texts.take(i + 1)));
        }
        i = i + 1;
    }
    push_char(out, ']');
    assert(texts.take(i as int) =~= texts);
    assert(out@ =~= old(out)@ + array(texts));
}

/// Where to search: around a point, or in named areas. The angles of the
/// point are counted in millionths of a degree, the radius in metres. Named
/// areas take precedence: while `geo_tags` holds a name, the point and the
/// radius are not sent.
#[derive(Debug, Clone, PartialEq)]
pub struct Location {
    pub latitude: i32,
    pub longitude: i32,
    pub radius: u32,
    pub geo_tags: Vec<String>,
}

/// The JSON object of a search around a point.
pub open spec fn point_text(latitude: int, longitude: int, radius: nat) -> Seq<char> {
    seq!['{'] + member("latitude"@, millionths(latitude))
        + seq![','] + member("longitude"@, millionths(longitude))
        + seq![','] + member("radius"@, decimal(radius))
        + seq!['}']
}

/// The JSON object of a search in the named areas `tags`.
pub open spec fn areas_text(tags: Seq<String>) -> Seq<char> {
    seq!['{'] + member("geoTags"@, array(tag_texts(tags))) + seq!['}']
}

impl Location {
    /// A search around a point.
    pub fn around(latitude: i32, longitude: i32, radius: u32) -> (r: Location)
        ensures
            r.latitude == latitude,
            r.longitude == longitude,
            r.radius == radius,
            r.geo_tags@.len() == 0,
    {
        Location { latitude, longitude, radius, geo_tags: Vec::new() }
    }

    /// This location, searched in the named areas `tags` from now on. The
    /// point and the radius are kept, and ignored while `tags` holds a name.
    pub fn with_geo_tags(self, tags: Vec<String>) -> (r: Location)
        ensures
            r.latitude == self.latitude,
            r.longitude == self.longitude,
            r.radius == self.radius,
            r.geo_tags == tags,
    {
        Location { latitude: self.latitude, longitude: self.longitude, radius: self.radius, geo_tags: tags }
    }

    /// Whether the search goes by named areas.
    pub open spec fn by_areas(&self) -> bool {
        self.geo_tags@.len() > 0
    }

    /// The JSON object of this location: the named areas where there are
    /// any, else the point and the radius; never both.
    pub open spec fn json(&self) -> Seq<char> {
        if self.by_areas() {
            areas_text(self.geo_tags@)
        } else {
            point_text(self.latitude as int, self.longitude as int, self.radius as nat)
        }
    }

    /// Appends this location's JSON object to `out`.
    pub fn push_json(&self, out: &mut String)
        ensures
            final(out)@ == old(out)@ + self.json(),
    {
        push_char(out, '{');
        if self.geo_tags.len() > 0 {
            push_key(out, "geoTags");
            push_tags(out, &self.geo_tags);
        } else {
            push_key(out, "latitude");
            push_millionths(out, self.latitude);
            push_char(out, ',');
            push_key(out, "longitude");
            push_millionths(out, self.longitude);
            push_char(out, ',');
            push_key(out, "radius");
            push_decimal(out, self.radius as u64);
        }
        push_char(out, '}');
        assert(out@ =~= old(out)@ + self.json());
    }
}

/// A search in named areas is sent without the point and the radius: two
/// locations that name the same areas have the same JSON text, whatever
/// point and radius each of them holds.
pub proof fn lemma_areas_hide_point(a: Location, b: Location)
    requires
        a.by_areas(),
        a.geo_tags@ == b.geo_tags@,
    ensures
        a.json() == b.json(),
        a.json() == areas_text(a.geo_tags@),
{
}

/// A range with both ends open is the empty object: no member stands for an
/// open end, not even one that holds `null`.
pub proof fn lemma_open_range_is_empty_object()
    ensures
        (FromTo { from: None, to: None }).json() == seq!['{', '}'],
{
    assert((FromTo { from: None, to: None }).json() =~= seq!['{', '}']);
}

/// Selects the two angles of a point.
#[derive(Debug, Clone, Copy, PartialEq, Eq, Structural)]
pub struct GeoCoordsTemplate {
    pub latitude: bool,
    pub longitude: bool,
}

impl GeoCoordsTemplate {
    /// The template with every field selected.
    pub open spec fn all() -> GeoCoordsTemplate {
        GeoCoordsTemplate {
            latitude: true,
            longitude: true,
        }
    }

    /// The JSON object of this template: one member for each field, in
    /// the order of declaration.
    pub open spec fn json(self) -> Seq<char> {
        object(
            seq![
                member("latitude"@, bool_text(self.latitude)),
                member("longitude"@, bool_text(self.longitude)),
            ],
        )
    }

    /// Appends this template's JSON object to `out`.
    pub fn push_json(&self, out: &mut String)
        ensures
            final(out)@ == old(out)@ + self.json(),
    {
        let ghost start = out@;
        let ghost mut members: Seq<Seq<char>> = Seq::empty();
        begin_object(out);
        bool_member(out, "latitude", self.latitude, true, Ghost(start), Ghost(members));
        proof {
            members = members.push(member("latitude"@, bool_text(self.latitude)));
        }
        bool_member(out, "longitude", self.longitude, false, Ghost(start), Ghost(members));
        proof {
            members = members.push(member("longitude"@, bool_text(self.longitude)));
        }
        end_object(out, Ghost(start), Ghost(members));
        assert(members =~= seq![
            member("latitude"@, bool_text(self.latitude)),
            member("longitude"@, bool_text(self.longitude)),
        ]);
    }
}

/// Selects the parts of an address.
#[derive(Debug, Clone, Copy, PartialEq, Eq, Structural)]
pub struct AddressTemplate {
    pub country: bool,
    pub geo_coordinates: GeoCoordsTemplate,
    pub locality: bool,
    pub post_office_box_number: bool,
    pub postal_code: bool,
    pub region: bool,
    pub street: bool,
    pub street_addition: bool,
}

impl AddressTemplate {
    /// The template with every field selected.
    pub open spec fn all() -> AddressTemplate {
        AddressTemplate {
            country: true,
            geo_coordinates: GeoCoordsTemplate::all(),
            locality: true,
            post_office_box_number: true,
            postal_code: true,
            region: true,
            street: true,
            street_addition: true,
        }
    }

    /// The JSON object of this template: one member for each field, in
    /// the order of declaration.
    pub open spec fn json(self) -> Seq<char> {
        object(
            seq![
                member("country"@, bool_text(self.country)),
                member("geoCoordinates"@, self.geo_coordinates.json()),
                member("locality"@, bool_text(self.locality)),
                member("postOfficeBoxNumber"@, bool_text(self.post_office_box_number)),
                member("postalCode"@, bool_text(self.postal_code)),
                member("region"@, bool_text(self.region)),
                member("street"@, bool_text(self.street)),
                member("streetAddition"@, bool_text(self.street_addition)),
            ],
        )
    }

    /// Appends this template's JSON object to `out`.
    pub fn push_json(&self, out: &mut String)
        ensures
            final(out)@ == old(out)@ + self.json(),
    {
        let ghost start = out@;
        let ghost mut members: Seq<Seq<char>> = Seq::empty();
        begin_object(out);
        bool_member(out, "country", self.country, true, Ghost(start), Ghost(members));
        proof {
            members = members.push(member("country"@, bool_text(self.country)));
        }
        begin_member(out, "geoCoordinates", false, Ghost(start), Ghost(members));
        self.geo_coordinates.push_json(out);
        proof {
            lemma_member_done(start, members, "geoCoordinates"@, self.geo_coordinates.json(), out@);
            members = members.push(member("geoCoordinates"@, self.geo_coordinates.json()));
        }
        bool_member(out, "locality", self.locality, false, Ghost(start), Ghost(members));
        proof {
            members = members.push(member("locality"@, bool_text(self.locality)));
        }
        bool_member(out, "postOfficeBoxNumber", self.post_office_box_number, false, Ghost(start), Ghost(members));
        proof {
            members = members.push(member("postOfficeBoxNumber"@, bool_text(self.post_office_box_number)));
        }
        bool_member(out, "postalCode", self.postal_code, false, Ghost(start), Ghost(members));
        proof {
            members = members.push(member("postalCode"@, bool_text(self.postal_code)));
        }
        bool_member(out, "region", self.region, false, Ghost(start), Ghost(members));
        proof {
            members = members.push(member("region"@, bool_text(self.region)));
        }
        bool_member(out, "street", self.street, false, Ghost(start), Ghost(members));
        proof {
            members = members.push(member("street"@, bool_text(self.street)));
        }
        bool_member(out, "streetAddition", self.street_addition, false, Ghost(start), Ghost(members));
        proof {
            members = members.push(member("streetAddition"@, bool_text(self.street_addition)));
        }
        end_object(out, Ghost(start), Ghost(members));
        assert(members =~= seq![
            member("country"@, bool_text(self.country)),
            member("geoCoordinates"@, self.geo_coordinates.json()),
            member("locality"@, bool_text(self.locality)),
            member("postOfficeBoxNumber"@, bool_text(self.post_office_box_number)),
            member("postalCode"@, bool_text(self.postal_code)),
            member("region"@, bool_text(self.region)),
            member("street"@, bool_text(self.street)),
            member("streetAddition"@, bool_text(self.street_addition)),
        ]);
    }
}

/// Selects the measures of a property.
#[derive(Debug, Clone, Copy, PartialEq, Eq, Structural)]
pub struct CharacteristicsTemplate {
    pub living_space: bool,
    pub lot_size: bool,
    pub number_of_rooms: bool,
    pub single_floor_space: bool,
    pub total_floor_space: bool,
}

impl CharacteristicsTemplate {
    /// The template with every field selected.
    pub open spec fn all() -> CharacteristicsTemplate {
        CharacteristicsTemplate {
            living_space: true,
            lot_size: true,
            number_of_rooms: true,
            single_floor_space: true,
            total_floor_space: true,
        }
    }

    /// The JSON object of this template: one member for each field, in
    /// the order of declaration.
    pub open spec fn json(self) -> Seq<char> {
        object(
            seq![
                member("livingSpace"@, bool_text(self.living_space)),
                member("lotSize"@, bool_text(self.lot_size)),
                member("numberOfRooms"@, bool_text(self.number_of_rooms)),
                member("singleFloorSpace"@, bool_text(self.single_floor_space)),
                member("totalFloorSpace"@, bool_text(self.total_floor_space)),
            ],
        )
    }

    /// Appends this template's JSON object to `out`.
    pub fn push_json(&self, out: &mut String)
        ensures
            final(out)@ == old(out)@ + self.json(),
    {
        let ghost start = out@;
        let ghost mut members: Seq<Seq<char>> = Seq::empty();
        begin_object(out);
        bool_member(out, "livingSpace", self.living_space, true, Ghost(start), Ghost(members));
        proof {
            members = members.push(member("livingSpace"@, bool_text(self.living_space)));
        }
        bool_member(out, "lotSize", self.lot_size, false, Ghost(start), Ghost(members));
        proof {
            members = members.push(member("lotSize"@, bool_text(self.lot_size)));
        }
        bool_member(out, "numberOfRooms", self.number_of_rooms, false, Ghost(start), Ghost(members));
        proof {
            members = members.push(member("numberOfRooms"@, bool_text(self.number_of_rooms)));
        }
        bool_member(out, "singleFloorSpace", self.single_floor_space, false, Ghost(start), Ghost(members));
        proof {
            members = members.push(member("singleFloorSpace"@, bool_text(self.single_floor_space)));
        }
        bool_member(out, "totalFloorSpace", self.total_floor_space, false, Ghost(start), Ghost(members));
        proof {
            members = members.push(member("totalFloorSpace"@, bool_text(self.total_floor_space)));
        }
        end_object(out, Ghost(start), Ghost(members));
        assert(members =~= seq![
            member("livingSpace"@, bool_text(self.living_space)),
            member("lotSize"@, bool_text(self.lot_size)),
            member("numberOfRooms"@, bool_text(self.number_of_rooms)),
            member("singleFloorSpace"@, bool_text(self.single_floor_space)),
            member("totalFloorSpace"@, bool_text(self.total_floor_space)),
        ]);
    }
}

/// Selects what is told of the lister.
#[derive(Debug, Clone, Copy, PartialEq, Eq, Structural)]
pub struct ListerTemplate {
    pub logo_url: bool,
    pub phone: bool,
}

impl ListerTemplate {
    /// The template with every field selected.
    pub open spec fn all() -> ListerTemplate {
        ListerTemplate {
            logo_url: true,
            phone: true,
        }
    }

    /// The JSON object of this template: one member for each field, in
    /// the order of declaration.
    pub open spec fn json(self) -> Seq<char> {
        object(
            seq![
                member("logoUrl"@, bool_text(self.logo_url)),
                member("phone"@, bool_text(self.phone)),
            ],
        )
    }

    /// Appends this template's JSON object to `out`.
    pub fn push_json(&self, out: &mut String)
        ensures
            final(out)@ == old(out)@ + self.json(),
    {
        let ghost start = out@;
        let ghost mut members: Seq<Seq<char>> = Seq::empty();
        begin_object(out);
        bool_member(out, "logoUrl", self.logo_url, true, Ghost(start), Ghost(members));
        proof {
            members = members.push(member("logoUrl"@, bool_text(self.logo_url)));
        }
        bool_member(out, "phone", self.phone, false, Ghost(start), Ghost(members));
        proof {
            members = members.push(member("phone"@, bool_text(self.phone)));
        }
        end_object(out, Ghost(start), Ghost(members));
        assert(members =~= seq![
            member("logoUrl"@, bool_text(self.logo_url)),
            member("phone"@, bool_text(self.phone)),
        ]);
    }
}

/// Selects the texts of one language.
#[derive(Debug, Clone, Copy, PartialEq, Eq, Structural)]
pub struct LocaleTextTemplate {
    pub title: bool,
}

impl LocaleTextTemplate {
    /// The template with every field selected.
    pub open spec fn all() -> LocaleTextTemplate {
        LocaleTextTemplate {
            title: true,
        }
    }

    /// The JSON object of this template: one member for each field, in
    /// the order of declaration.
    pub open spec fn json(self) -> Seq<char> {
        object(
            seq![
                member("title"@, bool_text(self.title)),
            ],
        )
    }

    /// Appends this template's JSON object to `out`.
    pub fn push_json(&self, out: &mut String)
        ensures
            final(out)@ == old(out)@ + self.json(),
    {
        let ghost start = out@;
        let ghost mut members: Seq<Seq<char>> = Seq::empty();
        begin_object(out);
        bool_member(out, "title", self.title, true, Ghost(start), Ghost(members));
        proof {
            members = members.push(member("title"@, bool_text(self.title)));
        }
        end_object(out, Ghost(start), Ghost(members));
        assert(members =~= seq![
            member("title"@, bool_text(self.title)),
        ]);
    }
}

/// Selects what is told of the links of one language.
#[derive(Debug, Clone, Copy, PartialEq, Eq, Structural)]
pub struct LocaleUrlsTemplate {
    pub t: bool,
}

impl LocaleUrlsTemplate {
    /// The template with every field selected.
    pub open spec fn all() -> LocaleUrlsTemplate {
        LocaleUrlsTemplate {
            t: true,
        }
    }

    /// The JSON object of this template: one member for each field, in
    /// the order of declaration.
    pub open spec fn json(self) -> Seq<char> {
        object(
            seq![
                member("type"@, bool_text(self.t)),
            ],
        )
    }

    /// Appends this template's JSON object to `out`.
    pub fn push_json(&self, out: &mut String)
        ensures
            final(out)@ == old(out)@ + self.json(),
    {
        let ghost start = out@;
        let ghost mut members: Seq<Seq<char>> = Seq::empty();
        begin_object(out);
        bool_member(out, "type", self.t, true, Ghost(start), Ghost(members));
        proof {
            members = members.push(member("type"@, bool_text(self.t)));
        }
        end_object(out, Ghost(start), Ghost(members));
        assert(members =~= seq![
            member("type"@, bool_text(self.t)),
        ]);
    }
}

/// Selects what is returned in one language.
#[derive(Debug, Clone, Copy, PartialEq, Eq, Structural)]
pub struct LocaleTemplate {
    pub attachments: bool,
    pub text: LocaleTextTemplate,
    pub urls: LocaleUrlsTemplate,
}

impl LocaleTemplate {
    /// The template with every field selected.
    pub open spec fn all() -> LocaleTemplate {
        LocaleTemplate {
            attachments: true,
            text: LocaleTextTemplate::all(),
            urls: LocaleUrlsTemplate::all(),
        }
    }

    /// The JSON object of this template: one member for each field, in
    /// the order of declaration.
    pub open spec fn json(self) -> Seq<char> {
        object(
            seq![
                member("attachments"@, bool_text(self.attachments)),
                member("text"@, self.text.json()),
                member("urls"@, self.urls.json()),
            ],
        )
    }

    /// Appends this template's JSON object to `out`.
    pub fn push_json(&self, out: &mut String)
        ensures
            final(out)@ == old(out)@ + self.json(),
    {
        let ghost start = out@;
        let ghost mut members: Seq<Seq<char>> = Seq::empty();
        begin_object(out);
        bool_member(out, "attachments", self.attachments, true, Ghost(start), Ghost(members));
        proof {
            members = members.push(member("attachments"@, bool_text(self.attachments)));
        }
        begin_member(out, "text", false, Ghost(start), Ghost(members));
        self.text.push_json(out);
        proof {
            lemma_member_done(start, members, "text"@, self.text.json(), out@);
            members = members.push(member("text"@, self.text.json()));
        }
        begin_member(out, "urls", false, Ghost(start), Ghost(members));
        self.urls.push_json(out);
        proof {
            lemma_member_done(start, members, "urls"@, self.urls.json(), out@);
            members = members.push(member("urls"@, self.urls.json()));
        }
        end_object(out, Ghost(start), Ghost(members));
        assert(members =~= seq![
            member("attachments"@, bool_text(self.attachments)),
            member("text"@, self.text.json()),
            member("urls"@, self.urls.json()),
        ]);
    }
}

/// Selects the languages.
#[derive(Debug, Clone, Copy, PartialEq, Eq, Structural)]
pub struct LocalizationTemplate {
    pub de: LocaleTemplate,
    pub en: LocaleTemplate,
    pub fr: LocaleTemplate,
    pub it: LocaleTemplate,
    pub primary: bool,
}

impl LocalizationTemplate {
    /// The template with every field selected.
    pub open spec fn all() -> LocalizationTemplate {
        LocalizationTemplate {
            de: LocaleTemplate::all(),
            en: LocaleTemplate::all(),
            fr: LocaleTemplate::all(),
            it: LocaleTemplate::all(),
            primary: true,
        }
    }

    /// The JSON object of this template: one member for each field, in
    /// the order of declaration.
    pub open spec fn json(self) -> Seq<char> {
        object(
            seq![
                member("de"@, self.de.json()),
                member("en"@, self.en.json()),
                member("fr"@, self.fr.json()),
                member("it"@, self.it.json()),
                member("primary"@, bool_text(self.primary)),
            ],
        )
    }

    /// Appends this template's JSON object to `out`.
    pub fn push_json(&self, out: &mut String)
        ensures
            final(out)@ == old(out)@ + self.json(),
    {
        let ghost start = out@;
        let ghost mut members: Seq<Seq<char>> = Seq::empty();
        begin_object(out);
        begin_member(out, "de", true, Ghost(start), Ghost(members));
        self.de.push_json(out);
        proof {
            lemma_member_done(start, members, "de"@, self.de.json(), out@);
            members = members.push(member("de"@, self.de.json()));
        }
        begin_member(out, "en", false, Ghost(start), Ghost(members));
        self.en.push_json(out);
        proof {
            lemma_member_done(start, members, "en"@, self.en.json(), out@);
            members = members.push(member("en"@, self.en.json()));
        }
        begin_member(out, "fr", false, Ghost(start), Ghost(members));
        self.fr.push_json(out);
        proof {
            lemma_member_done(start, members, "fr"@, self.fr.json(), out@);
            members = members.push(member("fr"@, self.fr.json()));
        }
        begin_member(out, "it", false, Ghost(start), Ghost(members));
        self.it.push_json(out);
        proof {
            lemma_member_done(start, members, "it"@, self.it.json(), out@);
            members = members.push(member("it"@, self.it.json()));
        }
        bool_member(out, "primary", self.primary, false, Ghost(start), Ghost(members));
        proof {
            members = members.push(member("primary"@, bool_text(self.primary)));
        }
        end_object(out, Ghost(start), Ghost(members));
        assert(members =~= seq![
            member("de"@, self.de.json()),
            member("en"@, self.en.json()),
            member("fr"@, self.fr.json()),
            member("it"@, self.it.json()),
            member("primary"@, bool_text(self.primary)),
        ]);
    }
}

/// Selects the parts of a listing.
#[derive(Debug, Clone, Copy, PartialEq, Eq, Structural)]
pub struct ListingTemplate {
    pub address: AddressTemplate,
    pub categories: bool,
    pub characteristics: CharacteristicsTemplate,
    pub id: bool,
    pub lister: ListerTemplate,
    pub localization: LocalizationTemplate,
    pub offer_type: bool,
    pub prices: bool,
}

impl ListingTemplate {
    /// The template with every field selected.
    pub open spec fn all() -> ListingTemplate {
        ListingTemplate {
            address: AddressTemplate::all(),
            categories: true,
            characteristics: CharacteristicsTemplate::all(),
            id: true,
            lister: ListerTemplate::all(),
            localization: LocalizationTemplate::all(),
            offer_type: true,
            prices: true,
        }
    }

    /// The JSON object of this template: one member for each field, in
    /// the order of declaration.
    pub open spec fn json(self) -> Seq<char> {
        object(
            seq![
                member("address"@, self.address.json()),
                member("categories"@, bool_text(self.categories)),
                member("characteristics"@, self.characteristics.json()),
                member("id"@, bool_text(self.id)),
                member("lister"@, self.lister.json()),
                member("localization"@, self.localization.json()),
                member("offerType"@, bool_text(self.offer_type)),
                member("prices"@, bool_text(self.prices)),
            ],
        )
    }

    /// Appends this template's JSON object to `out`.
    pub fn push_json(&self, out: &mut String)
        ensures
            final(out)@ == old(out)@ + self.json(),
    {
        let ghost start = out@;
        let ghost mut members: Seq<Seq<char>> = Seq::empty();
        begin_object(out);
        begin_member(out, "address", true, Ghost(start), Ghost(members));
        self.address.push_json(out);
        proof {
            lemma_member_done(start, members, "address"@, self.address.json(), out@);
            members = members.push(member("address"@, self.address.json()));
        }
        bool_member(out, "categories", self.categories, false, Ghost(start), Ghost(members));
        proof {
            members = members.push(member("categories"@, bool_text(self.categories)));
        }
        begin_member(out, "characteristics", false, Ghost(start), Ghost(members));
        self.characteristics.push_json(out);
        proof {
            lemma_member_done(start, members, "characteristics"@, self.characteristics.json(), out@);
            members = members.push(member("characteristics"@, self.characteristics.json()));
        }
        bool_member(out, "id", self.id, false, Ghost(start), Ghost(members));
        proof {
            members = members.push(member("id"@, bool_text(self.id)));
        }
        begin_member(out, "lister", false, Ghost(start), Ghost(members));
        self.lister.push_json(out);
        proof {
            lemma_member_done(start, members, "lister"@, self.lister.json(), out@);
            members = members.push(member("lister"@, self.lister.json()));
        }
        begin_member(out, "localization", false, Ghost(start), Ghost(members));
        self.localization.push_json(out);
        proof {
            lemma_member_done(start, members, "localization"@, self.localization.json(), out@);
            members = members.push(member("localization"@, self.localization.json()));
        }
        bool_member(out, "offerType", self.offer_type, false, Ghost(start), Ghost(members));
        proof {
            members = members.push(member("offerType"@, bool_text(self.offer_type)));
        }
        bool_member(out, "prices", self.prices, false, Ghost(start), Ghost(members));
        proof {
            members = members.push(member("prices"@, bool_text(self.prices)));
        }
        end_object(out, Ghost(start), Ghost(members));
        assert(members =~= seq![
            member("address"@, self.address.json()),
            member("categories"@, bool_text(self.categories)),
            member("characteristics"@, self.characteristics.json()),
            member("id"@, bool_text(self.id)),
            member("lister"@, self.lister.json()),
            member("localization"@, self.localization.json()),
            member("offerType"@, bool_text(self.offer_type)),
            member("prices"@, bool_text(self.prices)),
        ]);
    }
}

/// Selects the parts of a search hit.
#[derive(Debug, Clone, Copy, PartialEq, Eq, Structural)]
pub struct ResultTemplate {
    pub id: bool,
    pub lister_branding: bool,
    pub listing: ListingTemplate,
    pub listing_type: bool,
    pub remote_viewing: bool,
}

impl ResultTemplate {
    /// The template with every field selected.
    pub open spec fn all() -> ResultTemplate {
        ResultTemplate {
            id: true,
            lister_branding: true,
            listing: ListingTemplate::all(),
            listing_type: true,
            remote_viewing: true,
        }
    }

    /// The template that a search starts from: every field selected but
    /// the lister's logo, which is left out.
    pub open spec fn standard() -> ResultTemplate {
        ResultTemplate {
            listing: ListingTemplate {
                lister: ListerTemplate { logo_url: false, phone: true },
                ..ListingTemplate::all()
            },
            ..ResultTemplate::all()
        }
    }

    /// The JSON object of this template: one member for each field, in
    /// the order of declaration.
    pub open spec fn json(self) -> Seq<char> {
        object(
            seq![
                member("id"@, bool_text(self.id)),
                member("listerBranding"@, bool_text(self.lister_branding)),
                member("listing"@, self.listing.json()),
                member("listingType"@, bool_text(self.listing_type)),
                member("remoteViewing"@, bool_text(self.remote_viewing)),
            ],
        )
    }

    /// Appends this template's JSON object to `out`.
    pub fn push_json(&self, out: &mut String)
        ensures
            final(out)@ == old(out)@ + self.json(),
    {
        let ghost start = out@;
        let ghost mut members: Seq<Seq<char>> = Seq::empty();
        begin_object(out);
        bool_member(out, "id", self.id, true, Ghost(start), Ghost(members));
        proof {
            members = members.push(member("id"@, bool_text(self.id)));
        }
        bool_member(out, "listerBranding", self.lister_branding, false, Ghost(start), Ghost(members));
        proof {
            members = members.push(member("listerBranding"@, bool_text(self.lister_branding)));
        }
        begin_member(out, "listing", false, Ghost(start), Ghost(members));
        self.listing.push_json(out);
        proof {
            lemma_member_done(start, members, "listing"@, self.listing.json(), out@);
            members = members.push(member("listing"@, self.listing.json()));
        }
        bool_member(out, "listingType", self.listing_type, false, Ghost(start), Ghost(members));
        proof {
            members = members.push(member("listingType"@, bool_text(self.listing_type)));
        }
        bool_member(out, "remoteViewing", self.remote_viewing, false, Ghost(start), Ghost(members));
        proof {
            members = members.push(member("remoteViewing"@, bool_text(self.remote_viewing)));
        }
        end_object(out, Ghost(start), Ghost(members));
        assert(members =~= seq![
            member("id"@, bool_text(self.id)),
            member("listerBranding"@, bool_text(self.lister_branding)),
            member("listing"@, self.listing.json()),
            member("listingType"@, bool_text(self.listing_type)),
            member("remoteViewing"@, bool_text(self.remote_viewing)),
        ]);
    }
}

/// The filter of a search.
#[derive(Debug, Clone, PartialEq)]
pub struct Query {
    pub categories: Vec<Category>,
    pub exclude_categories: Vec<Category>,
    pub living_space: FromTo,
    pub location: Location,
    pub monthly_rent: FromTo,
    pub number_of_rooms: FromTo,
    pub offer_type: OfferType,
}

/// The JSON object of a filter whose location has the text `location`.
/// Categories are sent as their tags, in the order given.
pub open spec fn query_text(
    categories: Seq<Category>,
    exclude_categories: Seq<Category>,
    living_space: FromTo,
    location: Seq<char>,
    monthly_rent: FromTo,
    number_of_rooms: FromTo,
    offer_type: OfferType,
) -> Seq<char> {
    object(
        seq![
            member("categories"@, array(category_texts(categories))),
            member("excludeCategories"@, array(category_texts(exclude_categories))),
            member("livingSpace"@, living_space.json()),
            member("location"@, location),
            member("monthlyRent"@, monthly_rent.json()),
            member("numberOfRooms"@, number_of_rooms.json()),
            member("offerType"@, json_string(offer_type.tag_text())),
        ],
    )
}

impl Query {
    /// The JSON object of this filter.
    pub open spec fn json(&self) -> Seq<char> {
        query_text(
            self.categories@,
            self.exclude_categories@,
            self.living_space,
            self.location.json(),
            self.monthly_rent,
            self.number_of_rooms,
            self.offer_type,
        )
    }

    /// Appends this filter's JSON object to `out`.
    pub fn push_json(&self, out: &mut String)
        ensures
            final(out)@ == old(out)@ + self.json(),
    {
        let ghost start = out@;
        let ghost mut members: Seq<Seq<char>> = Seq::empty();
        begin_object(out);
        begin_member(out, "categories", true, Ghost(start), Ghost(members));
        push_categories(out, &self.categories);
        proof {
            lemma_member_done(start, members, "categories"@, array(category_texts(self.categories@)), out@);
            members = members.push(member("categories"@, array(category_texts(self.categories@))));
        }
        begin_member(out, "excludeCategories", false, Ghost(start), Ghost(members));
        push_categories(out, &self.exclude_categories);
        proof {
            lemma_member_done(start, members, "excludeCategories"@, array(category_texts(self.exclude_categories@)), out@);
            members = members.push(member("excludeCategories"@, array(category_texts(self.exclude_categories@))));
        }
        begin_member(out, "livingSpace", false, Ghost(start), Ghost(members));
        self.living_space.push_json(out);
        proof {
            lemma_member_done(start, members, "livingSpace"@, self.living_space.json(), out@);
            members = members.push(member("livingSpace"@, self.living_space.json()));
        }
        begin_member(out, "location", false, Ghost(start), Ghost(members));
        self.location.push_json(out);
        proof {
            lemma_member_done(start, members, "location"@, self.location.json(), out@);
            members = members.push(member("location"@, self.location.json()));
        }
        begin_member(out, "monthlyRent", false, Ghost(start), Ghost(members));
        self.monthly_rent.push_json(out);
        proof {
            lemma_member_done(start, members, "monthlyRent"@, self.monthly_rent.json(), out@);
            members = members.push(member("monthlyRent"@, self.monthly_rent.json()));
        }
        begin_member(out, "numberOfRooms", false, Ghost(start), Ghost(members));
        self.number_of_rooms.push_json(out);
        proof {
            lemma_member_done(start, members, "numberOfRooms"@, self.number_of_rooms.json(), out@);
            members = members.push(member("numberOfRooms"@, self.number_of_rooms.json()));
        }
        begin_member(out, "offerType", false, Ghost(start), Ghost(members));
        push_json_string(out, self.offer_type.tag());
        proof {
            lemma_member_done(start, members, "offerType"@, json_string(self.offer_type.tag_text()), out@);
            members = members.push(member("offerType"@, json_string(self.offer_type.tag_text())));
        }
        end_object(out, Ghost(start), Ghost(members));
        assert(members =~= seq![
            member("categories"@, array(category_texts(self.categories@))),
            member("excludeCategories"@, array(category_texts(self.exclude_categories@))),
            member("livingSpace"@, self.living_space.json()),
            member("location"@, self.location.json()),
            member("monthlyRent"@, self.monthly_rent.json()),
            member("numberOfRooms"@, self.number_of_rooms.json()),
            member("offerType"@, json_string(self.offer_type.tag_text())),
        ]);
    }
}

/// A search: which page, which filter, which fields, in which order.
#[derive(Debug, Clone, PartialEq)]
pub struct SearchRequest {
    pub from: i32,
    pub query: Query,
    pub result_template: ResultTemplate,
    pub size: i32,
    pub sort_by: String,
    pub sort_direction: String,
    pub track_total_hits: bool,
}

/// The JSON object of a search whose filter has the text `query`.
pub open spec fn request_text(
    from: int,
    query: Seq<char>,
    result_template: ResultTemplate,
    size: int,
    sort_by: Seq<char>,
    sort_direction: Seq<char>,
    track_total_hits: bool,
) -> Seq<char> {
    object(
        seq![
            member("from"@, signed_decimal(from)),
            member("query"@, query),
            member("resultTemplate"@, result_template.json()),
            member("size"@, signed_decimal(size)),
            member("sortBy"@, json_string(sort_by)),
            member("sortDirection"@, json_string(sort_direction)),
            member("trackTotalHits"@, bool_text(track_total_hits)),
        ],
    )
}

/// The categories that a search asks for unless told otherwise.
pub open spec fn default_categories() -> Seq<Category> {
    seq![
        Category::Apartment,
        Category::Maisonette,
        Category::Duplex,
        Category::AtticFlat,
        Category::RoofFlat,
        Category::Studio,
        Category::SingleRoom,
        Category::TerraceFlat,
        Category::BachelorFlat,
        Category::Loft,
        Category::Attic,
        Category::RowHouse,
        Category::BifamiliarHouse,
        Category::TerraceHouse,
        Category::Villa,
        Category::FarmHouse,
        Category::CaveHouse,
        Category::Castle,
        Category::GrannyFlat,
        Category::Chalet,
        Category::Rustico,
        Category::SingleHouse,
        Category::HobbyRoom,
        Category::CellarCompartment,
        Category::AtticCompartment,
    ]
}

/// The JSON text of the default search at a location whose text is
/// `location`.
pub open spec fn default_text(location: Seq<char>) -> Seq<char> {
    request_text(
        0,
        query_text(
            default_categories(),
            seq![Category::FurnishedFlat],
            FromTo { from: Some(60u32), to: None },
            location,
            FromTo { from: Some(500u32), to: None },
            FromTo { from: Some(2u32), to: None },
            OfferType::RENT,
        ),
        ResultTemplate::standard(),
        20,
        "listingType"@,
        "desc"@,
        true,
    )
}

fn push_bool(out: &mut String, b: bool)
    ensures
        final(out)@ == old(out)@ + bool_text(b),
{
    if b {
        out.append("true");
    } else {
        out.append("false");
    }
}

impl SearchRequest {
    /// A request asks for a page that exists: it starts at or after the
    /// first result and has room for at least one.
    pub open spec fn is_well_formed(&self) -> bool {
        self.from >= 0 && self.size > 0
    }

    /// Whether this request is well formed.
    pub fn is_valid(&self) -> (r: bool)
        ensures
            r == self.is_well_formed(),
    {
        self.from >= 0 && self.size > 0
    }

    /// Everything but the location is as the default search has it.
    pub open spec fn has_defaults(&self) -> bool {
        &&& self.from == 0
        &&& self.query.categories@ == default_categories()
        &&& self.query.exclude_categories@ == seq![Category::FurnishedFlat]
        &&& self.query.living_space == (FromTo { from: Some(60u32), to: None })
        &&& self.query.monthly_rent == (FromTo { from: Some(500u32), to: None })
        &&& self.query.number_of_rooms == (FromTo { from: Some(2u32), to: None })
        &&& self.query.offer_type == OfferType::RENT
        &&& self.result_template == ResultTemplate::standard()
        &&& self.size == 20
        &&& self.sort_by@ == "listingType"@
        &&& self.sort_direction@ == "desc"@
        &&& self.track_total_hits
    }

    /// The JSON object of this request.
    pub open spec fn json(&self) -> Seq<char> {
        request_text(
            self.from as int,
            self.query.json(),
            self.result_template,
            self.size as int,
            self.sort_by@,
            self.sort_direction@,
            self.track_total_hits,
        )
    }

    /// Appends this request's JSON object to `out`.
    pub fn push_json(&self, out: &mut String)
        ensures
            final(out)@ == old(out)@ + self.json(),
    {
        let ghost start = out@;
        let ghost mut members: Seq<Seq<char>> = Seq::empty();
        begin_object(out);
        begin_member(out, "from", true, Ghost(start), Ghost(members));
        push_signed_decimal(out, self.from as i64);
        proof {
            lemma_member_done(start, members, "from"@, signed_decimal(self.from as int), out@);
            members = members.push(member("from"@, signed_decimal(self.from as int)));
        }
        begin_member(out, "query", false, Ghost(start), Ghost(members));
        self.query.push_json(out);
        proof {
            lemma_member_done(start, members, "query"@, self.query.json(), out@);
            members = members.push(member("query"@, self.query.json()));
        }
        begin_member(out, "resultTemplate", false, Ghost(start), Ghost(members));
        self.result_template.push_json(out);
        proof {
            lemma_member_done(start, members, "resultTemplate"@, self.result_template.json(), out@);
            members = members.push(member("resultTemplate"@, self.result_template.json()));
        }
        begin_member(out, "size", false, Ghost(start), Ghost(members));
        push_signed_decimal(out, self.size as i64);
        proof {
            lemma_member_done(start, members, "size"@, signed_decimal(self.size as int), out@);
            members = members.push(member("size"@, signed_decimal(self.size as int)));
        }
        begin_member(out, "sortBy", false, Ghost(start), Ghost(members));
        push_json_string(out, self.sort_by.as_str());
        proof {
            lemma_member_done(start, members, "sortBy"@, json_string(self.sort_by@), out@);
            members = members.push(member("sortBy"@, json_string(self.sort_by@)));
        }
        begin_member(out, "sortDirection", false, Ghost(start), Ghost(members));
        push_json_string(out, self.sort_direction.as_str());
        proof {
            lemma_member_done(start, members, "sortDirection"@, json_string(self.sort_direction@), out@);
            members = members.push(member("sortDirection"@, json_string(self.sort_direction@)));
        }
        begin_member(out, "trackTotalHits", false, Ghost(start), Ghost(members));
        push_bool(out, self.track_total_hits);
        proof {
            lemma_member_done(start, members, "trackTotalHits"@, bool_text(self.track_total_hits), out@);
            members = members.push(member("trackTotalHits"@, bool_text(self.track_total_hits)));
        }
        end_object(out, Ghost(start), Ghost(members));
        assert(members =~= seq![
            member("from"@, signed_decimal(self.from as int)),
            member("query"@, self.query.json()),
            member("resultTemplate"@, self.result_template.json()),
            member("size"@, signed_decimal(self.size as int)),
            member("sortBy"@, json_string(self.sort_by@)),
            member("sortDirection"@, json_string(self.sort_direction@)),
            member("trackTotalHits"@, bool_text(self.track_total_hits)),
        ]);
    }

    /// The JSON text of this request.
    pub fn to_json(&self) -> (r: String)
        ensures
            r@ == self.json(),
    {
        let mut out = String::new();
        self.push_json(&mut out);
        assert(out@ =~= self.json());
        out
    }

    /// This request with its filters replaced; the location, the page, the
    /// template and the order stay as they are.
    pub fn with_filters(
        self,
        categories: Vec<Category>,
        exclude_categories: Vec<Category>,
        living_space: FromTo,
        monthly_rent: FromTo,
        number_of_rooms: FromTo,
        offer_type: OfferType,
    ) -> (r: SearchRequest)
        ensures
            r.query.categories == categories,
            r.query.exclude_categories == exclude_categories,
            r.query.living_space == living_space,
            r.query.monthly_rent == monthly_rent,
            r.query.number_of_rooms == number_of_rooms,
            r.query.offer_type == offer_type,
            r.query.location == self.query.location,
            r.from == self.from,
            r.result_template == self.result_template,
            r.size == self.size,
            r.sort_by == self.sort_by,
            r.sort_direction == self.sort_direction,
            r.track_total_hits == self.track_total_hits,
    {
        let mut r = self;
        r.query.categories = categories;
        r.query.exclude_categories = exclude_categories;
        r.query.living_space = living_space;
        r.query.monthly_rent = monthly_rent;
        r.query.number_of_rooms = number_of_rooms;
        r.query.offer_type = offer_type;
        r
    }

    /// This request with its location replaced; nothing else changes.
    pub fn with_location(self, location: Location) -> (r: SearchRequest)
        ensures
            r.query.location == location,
            r.from == self.from,
            r.query.categories == self.query.categories,
            r.query.exclude_categories == self.query.exclude_categories,
            r.query.living_space == self.query.living_space,
            r.query.monthly_rent == self.query.monthly_rent,
            r.query.number_of_rooms == self.query.number_of_rooms,
            r.query.offer_type == self.query.offer_type,
            r.result_template == self.result_template,
            r.size == self.size,
            r.sort_by == self.sort_by,
            r.sort_direction == self.sort_direction,
            r.track_total_hits == self.track_total_hits,
    {
        let mut r = self;
        r.query.location = location;
        r
    }
}

/// The search that callers start from: rented homes of at least two rooms
/// and sixty square metres around the centre of Zurich, the first twenty
/// hits, every field selected but the lister's logo.
pub fn default_search() -> (r: SearchRequest)
    ensures
        r.has_defaults(),
        r.is_well_formed(),
        r.result_template.listing.lister == (ListerTemplate { logo_url: false, phone: true }),
        r.result_template.listing.address == AddressTemplate::all(),
        r.query.location.latitude == 47359856,
        r.query.location.longitude == 8541819,
        r.query.location.radius == 622,
        !r.query.location.by_areas(),
{
    let location = Location::around(47359856, 8541819, 622);
    let all_locale = LocaleTemplate {
        attachments: true,
        text: LocaleTextTemplate { title: true },
        urls: LocaleUrlsTemplate { t: true },
    };
    let r = SearchRequest {
        from: 0,
        query: Query {
            categories: vec![
                Category::Apartment,
                Category::Maisonette,
                Category::Duplex,
                Category::AtticFlat,
                Category::RoofFlat,
                Category::Studio,
                Category::SingleRoom,
                Category::TerraceFlat,
                Category::BachelorFlat,
                Category::Loft,
                Category::Attic,
                Category::RowHouse,
                Category::BifamiliarHouse,
                Category::TerraceHouse,
                Category::Villa,
                Category::FarmHouse,
                Category::CaveHouse,
                Category::Castle,
                Category::GrannyFlat,
                Category::Chalet,
                Category::Rustico,
                Category::SingleHouse,
                Category::HobbyRoom,
                Category::CellarCompartment,
                Category::AtticCompartment,
            ],
            exclude_categories: vec![Category::FurnishedFlat],
            living_space: FromTo { from: Some(60), to: None },
            location,
            monthly_rent: FromTo { from: Some(500), to: None },
            number_of_rooms: FromTo { from: Some(2), to: None },
            offer_type: OfferType::RENT,
        },
        result_template: ResultTemplate {
            id: true,
            lister_branding: true,
            listing: ListingTemplate {
                address: AddressTemplate {
                    country: true,
                    geo_coordinates: GeoCoordsTemplate { latitude: true, longitude: true },
                    locality: true,
                    post_office_box_number: true,
                    postal_code: true,
                    region: true,
                    street: true,
                    street_addition: true,
                },
                categories: true,
                characteristics: CharacteristicsTemplate {
                    living_space: true,
                    lot_size: true,
                    number_of_rooms: true,
                    single_floor_space: true,
                    total_floor_space: true,
                },
                id: true,
                lister: ListerTemplate { logo_url: false, phone: true },
                localization: LocalizationTemplate {
                    de: all_locale,
                    en: all_locale,
                    fr: all_locale,
                    it: all_locale,
                    primary: true,
                },
                offer_type: true,
                prices: true,
            },
            listing_type: true,
            remote_viewing: true,
        },
        size: 20,
        sort_by: String::from_str("listingType"),
        sort_direction: String::from_str("desc"),
        track_total_hits: true,
    };
    assert(r.query.categories@ =~= default_categories());
    assert(r.query.exclude_categories@ =~= seq![Category::FurnishedFlat]);
    r
}

/// The body of the default search at `location`, as it is sent.
pub fn search_body(location: Location) -> (r: String)
    ensures
        r@ == default_text(location.json()),
{
    let request = default_search().with_location(location);
    request.to_json()
}

/// A request that has the defaults is sent as the default text at its
/// location.
pub proof fn lemma_default_json(request: SearchRequest)
    requires
        request.has_defaults(),
    ensures
        request.json() == default_text(request.query.location.json()),
{
}

/// The tags of a filter's categories are sent one for one and in order:
/// the array has as many items as there are categories, and each item is
/// the string literal of its category's tag.
pub proof fn lemma_categories_keep_order(categories: Seq<Category>, i: int)
    requires
        0 <= i < categories.len(),
    ensures
        category_texts(categories).len() == categories.len(),
        category_texts(categories)[i] == json_string(categories[i].tag_text()),
{
}

} // verus!
