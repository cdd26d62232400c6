//! Payments over mobile money in Africa: which provider carries a payment
//! to a phone number in a country.

use vstd::prelude::*;
use crate::table::Table;
use crate::text::{is_one_of, str_eq, str_starts_with, strings_from, views_of};

verus! {

/// Where a payment stands.
#[derive(Debug, Clone, Copy, PartialEq, Eq, Structural)]
pub enum TransactionState {
    Pending,
    Processing,
    Completed,
    Failed,
    Cancelled,
    Reversed,
}

/// Routes of phone number prefixes to providers, in the order in which
/// they are tried.
pub type Routes = Seq<(Seq<char>, Seq<char>)>;

/// The prefixes of `routes`, in order.
pub open spec fn prefixes_of(routes: Routes) -> Seq<Seq<char>> {
    Seq::new(routes.len(), |i: int| routes[i].0)
}

/// `routes` with `prefix` routed to `provider`: a prefix routed before
/// keeps its place and gets the new provider, a new prefix goes to the end.
pub open spec fn routed_to(routes: Routes, prefix: Seq<char>, provider: Seq<char>) -> Routes {
    if prefixes_of(routes).contains(prefix) {
        routes.update(prefixes_of(routes).index_of(prefix), (prefix, provider))
    } else {
        routes.push((prefix, provider))
    }
}

/// `routes` with each of `prefixes` routed to `provider`.
pub open spec fn all_routed_to(routes: Routes, prefixes: Seq<&'static str>, provider: Seq<char>) -> Routes
    decreases prefixes.len(),
{
    if prefixes.len() == 0 {
        routes
    } else {
        routed_to(all_routed_to(routes, prefixes.drop_last(), provider), prefixes.last()@, provider)
    }
}

/// The provider of the first route whose prefix `phone` begins with.
pub open spec fn first_match(routes: Routes, phone: Seq<char>) -> Option<Seq<char>>
    decreases routes.len(),
{
    if routes.len() == 0 {
        None
    } else if routes[0].0.is_prefix_of(phone) {
        Some(routes[0].1)
    } else {
        first_match(routes.skip(1), phone)
    }
}

/// The Kenyan prefixes of M-PESA.
pub open spec fn kenya_mpesa_prefixes() -> Seq<&'static str> {
    seq![
        "0700", "0701", "0702", "0703", "0704", "0705", "0706", "0707", "0708", "0709", "0710",
        "0711", "0712", "0713", "0714", "0715", "0716", "0717", "0718", "0719", "0720", "0721",
        "0722", "0723", "0724", "0725", "0726", "0727", "0728", "0729", "0790", "0791", "0792",
        "0793", "0794", "0795",
    ]
}

/// The Kenyan prefixes of Airtel.
pub open spec fn kenya_airtel_prefixes() -> Seq<&'static str> {
    seq![
        "0730", "0731", "0732", "0733", "0734", "0735", "0736", "0737", "0738", "0739", "0750",
        "0751", "0752", "0753", "0754", "0755", "0756", "0780",
    ]
}

/// The Ghanaian prefixes of MTN.
pub open spec fn ghana_mtn_prefixes() -> Seq<&'static str> {
    seq!["024", "025", "053", "054", "055", "059"]
}

/// The Ghanaian prefixes of Vodafone.
pub open spec fn ghana_vodafone_prefixes() -> Seq<&'static str> {
    seq!["020", "050"]
}

/// The Ghanaian prefixes of AirtelTigo.
pub open spec fn ghana_airtel_prefixes() -> Seq<&'static str> {
    seq!["026", "056", "027", "057"]
}

/// The routes by prefix that every router starts with: those of Kenya and
/// of Ghana.
pub open spec fn builtin_routes() -> Map<Seq<char>, Routes> {
    Map::<Seq<char>, Routes>::empty().insert(
        "KE"@,
        all_routed_to(
            all_routed_to(Seq::empty(), kenya_mpesa_prefixes(), "MPESA_KE"@),
            kenya_airtel_prefixes(),
            "AIRTEL_KE"@,
        ),
    ).insert(
        "GH"@,
        all_routed_to(
            all_routed_to(
                all_routed_to(Seq::empty(), ghana_mtn_prefixes(), "MTN_GH"@),
                ghana_vodafone_prefixes(),
                "VODAFONE_GH"@,
            ),
            ghana_airtel_prefixes(),
            "AIRTEL_GH"@,
        ),
    )
}

/// The providers of each country that every router starts with, the
/// preferred one first.
pub open spec fn builtin_providers() -> Map<Seq<char>, Seq<Seq<char>>> {
    Map::<Seq<char>, Seq<Seq<char>>>::empty().insert(
        "KE"@,
        views_of(seq!["MPESA_KE", "AIRTEL_KE"]),
    ).insert(
        "TZ"@,
        views_of(seq!["MPESA_TZ", "TIGOPESA"]),
    ).insert(
        "UG"@,
        views_of(seq!["MTN_UG", "AIRTEL_UG"]),
    ).insert(
        "RW"@,
        views_of(seq!["MTN_RW", "AIRTEL_RW"]),
    ).insert(
        "ET"@,
        views_of(seq!["TELEBIRR"]),
    ).insert(
        "NG"@,
        views_of(seq!["FLUTTERWAVE", "PAYSTACK", "OPAY"]),
    ).insert(
        "GH"@,
        views_of(seq!["MTN_GH", "VODAFONE_GH"]),
    ).insert(
        "SN"@,
        views_of(seq!["WAVE", "ORANGE_SN"]),
    ).insert(
        "CI"@,
        views_of(seq!["WAVE", "ORANGE_CI", "MTN_CI"]),
    ).insert(
        "ML"@,
        views_of(seq!["ORANGE_ML", "MOOV_ML"]),
    ).insert(
        "BF"@,
        views_of(seq!["ORANGE_BF", "MOOV_BF"]),
    ).insert(
        "CM"@,
        views_of(seq!["MTN_CM", "ORANGE_CM"]),
    ).insert(
        "ZA"@,
        views_of(seq!["FLUTTERWAVE", "PAYSTACK"]),
    ).insert(
        "ZW"@,
        views_of(seq!["ECOCASH", "ONEMONEY"]),
    ).insert(
        "ZM"@,
        views_of(seq!["MTN_ZM", "AIRTEL_ZM"]),
    ).insert(
        "MZ"@,
        views_of(seq!["MPESA_MZ", "EMOLA"]),
    ).insert(
        "EG"@,
        views_of(seq!["VODAFONE_EG", "FAWRY"]),
    ).insert(
        "MA"@,
        views_of(seq!["ORANGE_MA", "INWI_MA"]),
    )
}

/// The prefix that phone numbers of a country carry in international
/// form, for the countries whose numbers the router brings into national
/// form.
pub open spec fn international_prefix(country: Seq<char>) -> Option<&'static str> {
    if country == "KE"@ {
        Some("+254")
    }     else if country == "GH"@ {
        Some("+233")
    }     else if country == "NG"@ {
        Some("+234")
    }     else if country == "TZ"@ {
        Some("+255")
    }     else if country == "UG"@ {
        Some("+256")
    }     else if country == "RW"@ {
        Some("+250")
    }     else if country == "SN"@ {
        Some("+221")
    }     else if country == "CI"@ {
        Some("+225")
    }     else if country == "ZA"@ {
        Some("+27")
    } else {
        None
    }
}

/// A phone number in national form: where it carries the international
/// prefix of its country, a zero takes the place of the prefix.
pub open spec fn national_form(phone: Seq<char>, country: Seq<char>) -> Seq<char> {
    match international_prefix(country) {
        Some(prefix) => if prefix@.is_prefix_of(phone) {
            seq!['0'] + phone.skip(prefix@.len() as int)
        } else {
            phone
        },
        None => phone,
    }
}

/// The message for a country without a provider.
pub open spec fn no_provider(country: Seq<char>) -> Seq<char> {
    "No provider available for country: "@ + country
}

/// The routes of a table, in the order of the table.
pub open spec fn routes_of(table: Table<String>) -> Routes {
    Seq::new(table.keys().len(), |i: int| (table.keys()[i], table.values()[i]@))
}

/// The routes of each country of a table.
pub open spec fn route_tables(table: Table<Table<String>>) -> Map<Seq<char>, Routes> {
    table@.map_values(|t: Table<String>| routes_of(t))
}

/// The provider lists of each country of a table.
pub open spec fn provider_lists(table: Table<Vec<String>>) -> Map<Seq<char>, Seq<Seq<char>>> {
    table@.map_values(|v: Vec<String>| v.deep_view())
}

/// Routes each of `prefixes` to `provider`.
fn route_all(table: &mut Table<String>, prefixes: &[&'static str], provider: &'static str)
    ensures
        routes_of(*final(table)) == all_routed_to(routes_of(*old(table)), prefixes@, provider@),
{
    let n: usize = prefixes.len();
    let mut i: usize = 0;
    assert(prefixes@.subrange(0, 0) =~= Seq::<&'static str>::empty());
    while i < n
        invariant
            n == prefixes@.len(),
            i <= n,
            routes_of(*table) == all_routed_to(
                routes_of(*old(table)),
                prefixes@.subrange(0, i as int),
                provider@,
            ),
        decreases n - i,
    {
        let ghost before = *table;
        proof {
            let upto = prefixes@.subrange(0, i + 1);
            assert(upto.drop_last() =~= prefixes@.subrange(0, i as int));
            assert(upto.last() == prefixes@[i as int]);
            use_type_invariant(&*table);
            assert(prefixes_of(routes_of(before)) =~= before.keys());
        }
        table.insert(prefixes[i].to_owned(), provider.to_owned());
        proof {
            assert(routes_of(*table) =~= routed_to(
                routes_of(before),
                prefixes@[i as int]@,
                provider@,
            ));
        }
        i += 1;
    }
    assert(prefixes@.subrange(0, n as int) =~= prefixes@);
}

/// Tells which provider carries a payment.
#[derive(Debug)]
pub struct ProviderRouter {
    country_providers: Table<Vec<String>>,
    prefix_routes: Table<Table<String>>,
}

impl ProviderRouter {
    /// The providers of each country, the preferred one first.
    pub closed spec fn providers(&self) -> Map<Seq<char>, Seq<Seq<char>>> {
        provider_lists(self.country_providers)
    }

    /// The routes by prefix of each country that has any.
    pub closed spec fn routes(&self) -> Map<Seq<char>, Routes> {
        route_tables(self.prefix_routes)
    }

    /// The provider that the prefix of `phone` names, if the country has
    /// routes by prefix and one of them fits the number in national form.
    pub open spec fn by_prefix(&self, country: Seq<char>, phone: Seq<char>) -> Option<Seq<char>> {
        if self.routes().contains_key(country) {
            first_match(self.routes()[country], national_form(phone, country))
        } else {
            None
        }
    }

    /// The provider that comes first for `country`, if it has any.
    pub open spec fn first_provider(&self, country: Seq<char>) -> Option<Seq<char>> {
        if self.providers().contains_key(country) && self.providers()[country].len() > 0 {
            Some(self.providers()[country][0])
        } else {
            None
        }
    }

    /// The provider that carries a payment to `phone` in `country`: the
    /// one the payer prefers; else the one that the prefix of the number
    /// names; else the first provider of the country. Where none of the
    /// three gives a provider, a message that says so.
    pub open spec fn spec_route(
        &self,
        country: Seq<char>,
        phone: Seq<char>,
        preferred: Option<Seq<char>>,
    ) -> Result<Seq<char>, Seq<char>> {
        match preferred {
            Some(p) => Ok(p),
            None => match self.by_prefix(country, phone) {
                Some(p) => Ok(p),
                None => match self.first_provider(country) {
                    Some(p) => Ok(p),
                    None => Err(no_provider(country)),
                },
            },
        }
    }

    /// A router with the built-in providers and routes.
    pub fn new() -> (r: ProviderRouter)
        ensures
            r.providers() == builtin_providers(),
            r.routes() == builtin_routes(),
    {
        let mut providers: Table<Vec<String>> = Table::new();
        assert(provider_lists(providers) =~= Map::<Seq<char>, Seq<Seq<char>>>::empty());
        let list1 = ["MPESA_KE", "AIRTEL_KE"];
        assert(list1@ =~= seq!["MPESA_KE", "AIRTEL_KE"]);
        let ghost before1 = provider_lists(providers);
        providers.insert("KE".to_owned(), strings_from(&list1));
        assert(provider_lists(providers) =~= before1.insert("KE"@, views_of(seq!["MPESA_KE", "AIRTEL_KE"])));
        let list2 = ["MPESA_TZ", "TIGOPESA"];
        assert(list2@ =~= seq!["MPESA_TZ", "TIGOPESA"]);
        let ghost before2 = provider_lists(providers);
        providers.insert("TZ".to_owned(), strings_from(&list2));
        assert(provider_lists(providers) =~= before2.insert("TZ"@, views_of(seq!["MPESA_TZ", "TIGOPESA"])));
        let list3 = ["MTN_UG", "AIRTEL_UG"];
        assert(list3@ =~= seq!["MTN_UG", "AIRTEL_UG"]);
        let ghost before3 = provider_lists(providers);
        providers.insert("UG".to_owned(), strings_from(&list3));
        assert(provider_lists(providers) =~= before3.insert("UG"@, views_of(seq!["MTN_UG", "AIRTEL_UG"])));
        let list4 = ["MTN_RW", "AIRTEL_RW"];
        assert(list4@ =~= seq!["MTN_RW", "AIRTEL_RW"]);
        let ghost before4 = provider_lists(providers);
        providers.insert("RW".to_owned(), strings_from(&list4));
        assert(provider_lists(providers) =~= before4.insert("RW"@, views_of(seq!["MTN_RW", "AIRTEL_RW"])));
        let list5 = ["TELEBIRR"];
        assert(list5@ =~= seq!["TELEBIRR"]);
        let ghost before5 = provider_lists(providers);
        providers.insert("ET".to_owned(), strings_from(&list5));
        assert(provider_lists(providers) =~= before5.insert("ET"@, views_of(seq!["TELEBIRR"])));
        let list6 = ["FLUTTERWAVE", "PAYSTACK", "OPAY"];
        assert(list6@ =~= seq!["FLUTTERWAVE", "PAYSTACK", "OPAY"]);
        let ghost before6 = provider_lists(providers);
        providers.insert("NG".to_owned(), strings_from(&list6));
        assert(provider_lists(providers) =~= before6.insert("NG"@, views_of(seq!["FLUTTERWAVE", "PAYSTACK", "OPAY"])));
        let list7 = ["MTN_GH", "VODAFONE_GH"];
        assert(list7@ =~= seq!["MTN_GH", "VODAFONE_GH"]);
        let ghost before7 = provider_lists(providers);
        providers.insert("GH".to_owned(), strings_from(&list7));
        assert(provider_lists(providers) =~= before7.insert("GH"@, views_of(seq!["MTN_GH", "VODAFONE_GH"])));
        let list8 = ["WAVE", "ORANGE_SN"];
        assert(list8@ =~= seq!["WAVE", "ORANGE_SN"]);
        let ghost before8 = provider_lists(providers);
        providers.insert("SN".to_owned(), strings_from(&list8));
        assert(provider_lists(providers) =~= before8.insert("SN"@, views_of(seq!["WAVE", "ORANGE_SN"])));
        let list9 = ["WAVE", "ORANGE_CI", "MTN_CI"];
        assert(list9@ =~= seq!["WAVE", "ORANGE_CI", "MTN_CI"]);
        let ghost before9 = provider_lists(providers);
        providers.insert("CI".to_owned(), strings_from(&list9));
        assert(provider_lists(providers) =~= before9.insert("CI"@, views_of(seq!["WAVE", "ORANGE_CI", "MTN_CI"])));
        let list10 = ["ORANGE_ML", "MOOV_ML"];
        assert(list10@ =~= seq!["ORANGE_ML", "MOOV_ML"]);
        let ghost before10 = provider_lists(providers);
        providers.insert("ML".to_owned(), strings_from(&list10));
        assert(provider_lists(providers) =~= before10.insert("ML"@, views_of(seq!["ORANGE_ML", "MOOV_ML"])));
        let list11 = ["ORANGE_BF", "MOOV_BF"];
        assert(list11@ =~= seq!["ORANGE_BF", "MOOV_BF"]);
        let ghost before11 = provider_lists(providers);
        providers.insert("BF".to_owned(), strings_from(&list11));
        assert(provider_lists(providers) =~= before11.insert("BF"@, views_of(seq!["ORANGE_BF", "MOOV_BF"])));
        let list12 = ["MTN_CM", "ORANGE_CM"];
        assert(list12@ =~= seq!["MTN_CM", "ORANGE_CM"]);
        let ghost before12 = provider_lists(providers);
        providers.insert("CM".to_owned(), strings_from(&list12));
        assert(provider_lists(providers) =~= before12.insert("CM"@, views_of(seq!["MTN_CM", "ORANGE_CM"])));
        let list13 = ["FLUTTERWAVE", "PAYSTACK"];
        assert(list13@ =~= seq!["FLUTTERWAVE", "PAYSTACK"]);
        let ghost before13 = provider_lists(providers);
        providers.insert("ZA".to_owned(), strings_from(&list13));
        assert(provider_lists(providers) =~= before13.insert("ZA"@, views_of(seq!["FLUTTERWAVE", "PAYSTACK"])));
        let list14 = ["ECOCASH", "ONEMONEY"];
        assert(list14@ =~= seq!["ECOCASH", "ONEMONEY"]);
        let ghost before14 = provider_lists(providers);
        providers.insert("ZW".to_owned(), strings_from(&list14));
        assert(provider_lists(providers) =~= before14.insert("ZW"@, views_of(seq!["ECOCASH", "ONEMONEY"])));
        let list15 = ["MTN_ZM", "AIRTEL_ZM"];
        assert(list15@ =~= seq!["MTN_ZM", "AIRTEL_ZM"]);
        let ghost before15 = provider_lists(providers);
        providers.insert("ZM".to_owned(), strings_from(&list15));
        assert(provider_lists(providers) =~= before15.insert("ZM"@, views_of(seq!["MTN_ZM", "AIRTEL_ZM"])));
        let list16 = ["MPESA_MZ", "EMOLA"];
        assert(list16@ =~= seq!["MPESA_MZ", "EMOLA"]);
        let ghost before16 = provider_lists(providers);
        providers.insert("MZ".to_owned(), strings_from(&list16));
        assert(provider_lists(providers) =~= before16.insert("MZ"@, views_of(seq!["MPESA_MZ", "EMOLA"])));
        let list17 = ["VODAFONE_EG", "FAWRY"];
        assert(list17@ =~= seq!["VODAFONE_EG", "FAWRY"]);
        let ghost before17 = provider_lists(providers);
        providers.insert("EG".to_owned(), strings_from(&list17));
        assert(provider_lists(providers) =~= before17.insert("EG"@, views_of(seq!["VODAFONE_EG", "FAWRY"])));
        let list18 = ["ORANGE_MA", "INWI_MA"];
        assert(list18@ =~= seq!["ORANGE_MA", "INWI_MA"]);
        let ghost before18 = provider_lists(providers);
        providers.insert("MA".to_owned(), strings_from(&list18));
        assert(provider_lists(providers) =~= before18.insert("MA"@, views_of(seq!["ORANGE_MA", "INWI_MA"])));

        let ke_mpesa = [
            "0700", "0701", "0702", "0703", "0704", "0705", "0706", "0707", "0708", "0709", "0710",
            "0711", "0712", "0713", "0714", "0715", "0716", "0717", "0718", "0719", "0720", "0721",
            "0722", "0723", "0724", "0725", "0726", "0727", "0728", "0729", "0790", "0791", "0792",
            "0793", "0794", "0795",
        ];
        let ke_airtel = [
            "0730", "0731", "0732", "0733", "0734", "0735", "0736", "0737", "0738", "0739", "0750",
            "0751", "0752", "0753", "0754", "0755", "0756", "0780",
        ];
        assert(ke_mpesa@ =~= kenya_mpesa_prefixes());
        assert(ke_airtel@ =~= kenya_airtel_prefixes());
        let mut kenya: Table<String> = Table::new();
        assert(routes_of(kenya) =~= Seq::<(Seq<char>, Seq<char>)>::empty());
        route_all(&mut kenya, &ke_mpesa, "MPESA_KE");
        route_all(&mut kenya, &ke_airtel, "AIRTEL_KE");

        let gh_mtn = ["024", "025", "053", "054", "055", "059"];
        let gh_vodafone = ["020", "050"];
        let gh_airtel = ["026", "056", "027", "057"];
        assert(gh_mtn@ =~= ghana_mtn_prefixes());
        assert(gh_vodafone@ =~= ghana_vodafone_prefixes());
        assert(gh_airtel@ =~= ghana_airtel_prefixes());
        let mut ghana: Table<String> = Table::new();
        assert(routes_of(ghana) =~= Seq::<(Seq<char>, Seq<char>)>::empty());
        route_all(&mut ghana, &gh_mtn, "MTN_GH");
        route_all(&mut ghana, &gh_vodafone, "VODAFONE_GH");
        route_all(&mut ghana, &gh_airtel, "AIRTEL_GH");

        let mut routes: Table<Table<String>> = Table::new();
        let ghost none = route_tables(routes);
        assert(none =~= Map::<Seq<char>, Routes>::empty());
        let ghost kenya_routes = routes_of(kenya);
        let ghost ghana_routes = routes_of(ghana);
        routes.insert("KE".to_owned(), kenya);
        let ghost one = route_tables(routes);
        assert(one =~= none.insert("KE"@, kenya_routes));
        routes.insert("GH".to_owned(), ghana);
        assert(route_tables(routes) =~= one.insert("GH"@, ghana_routes));
        ProviderRouter { country_providers: providers, prefix_routes: routes }
    }

    /// The provider that carries a payment to `phone` in `country`, or the
    /// message that there is none.
    pub fn route(&self, country: &str, phone: &str, preferred: Option<&str>) -> (r: Result<
        String,
        String,
    >)
        ensures
            match r {
                Ok(p) => self.spec_route(country@, phone@, spec_str_view(preferred)) == Ok::<
                    Seq<char>,
                    Seq<char>,
                >(p@),
                Err(m) => self.spec_route(country@, phone@, spec_str_view(preferred)) == Err::<
                    Seq<char>,
                    Seq<char>,
                >(m@),
            },
    {
        if let Some(p) = preferred {
            return Ok(p.to_owned());
        }
        if let Some(table) = self.prefix_routes.get(country) {
            let normalized = self.normalize_phone(phone, country);
            let n: usize = table.len();
            let mut i: usize = 0;
            let ghost routes = routes_of(*table);
            assert(routes.skip(0) =~= routes);
            assert(self.routes().contains_key(country@) && self.routes()[country@] == routes);
            while i < n
                invariant
                    n == table.keys().len(),
                    n == table.values().len(),
                    i <= n,
                    routes == routes_of(*table),
                    preferred is None,
                    self.routes().contains_key(country@),
                    self.routes()[country@] == routes,
                    normalized@ == national_form(phone@, country@),
                    first_match(routes, normalized@) == first_match(
                        routes.skip(i as int),
                        normalized@,
                    ),
                decreases n - i,
            {
                let ghost rest = routes.skip(i as int);
                assert(rest[0] == routes[i as int]);
                assert(rest.skip(1) =~= routes.skip(i + 1));
                if str_starts_with(normalized.as_str(), table.key_at(i).as_str()) {
                    let provider = table.value_at(i).clone();
                    assert(first_match(routes, normalized@) == Some(provider@));
                    return Ok(provider);
                }
                i += 1;
            }
        }
        if let Some(list) = self.country_providers.get(country) {
            if list.len() > 0 {
                return Ok(list[0].clone());
            }
        }
        let mut message = "No provider available for country: ".to_owned();
        message.append(country);
        Err(message)
    }

    /// The providers of a country, the preferred one first; none for a
    /// country the router does not know.
    pub fn get_providers(&self, country: &str) -> (r: Vec<&str>)
        ensures
            strs_view(r@) == if self.providers().contains_key(country@) {
                self.providers()[country@]
            } else {
                Seq::empty()
            },
    {
        let mut out: Vec<&str> = Vec::new();
        match self.country_providers.get(country) {
            Some(list) => {
                let n: usize = list.len();
                let mut i: usize = 0;
                while i < n
                    invariant
                        n == list@.len(),
                        i <= n,
                        out@.len() == i,
                        forall|k: int| 0 <= k < i ==> out@[k]@ == list@[k]@,
                    decreases n - i,
                {
                    out.push(list[i].as_str());
                    i += 1;
                }
                assert(strs_view(out@) =~= list.deep_view());
            },
            None => {
                assert(strs_view(out@) =~= Seq::<Seq<char>>::empty());
            },
        }
        out
    }

    /// The phone number in national form.
    pub fn normalize_phone(&self, phone: &str, country: &str) -> (r: String)
        ensures
            r@ == national_form(phone@, country@),
    {
        let prefix: Option<&'static str> =
            if str_eq(country, "KE") {
            Some("+254")
        }         else if str_eq(country, "GH") {
            Some("+233")
        }         else if str_eq(country, "NG") {
            Some("+234")
        }         else if str_eq(country, "TZ") {
            Some("+255")
        }         else if str_eq(country, "UG") {
            Some("+256")
        }         else if str_eq(country, "RW") {
            Some("+250")
        }         else if str_eq(country, "SN") {
            Some("+221")
        }         else if str_eq(country, "CI") {
            Some("+225")
        }         else if str_eq(country, "ZA") {
            Some("+27")
        } else {
            None
        };
        match prefix {
            Some(p) => {
                if str_starts_with(phone, p) {
                    proof {
                        reveal_strlit("0");
                    }
                    let skip = p.unicode_len();
                    let len = phone.unicode_len();
                    let mut r = "0".to_owned();
                    r.append(phone.substring_char(skip, len));
                    assert(r@ =~= seq!['0'] + phone@.skip(p@.len() as int));
                    r
                } else {
                    phone.to_owned()
                }
            },
            None => phone.to_owned(),
        }
    }
}

impl Default for ProviderRouter {
    fn default() -> (r: ProviderRouter)
        ensures
            r.providers() == builtin_providers(),
            r.routes() == builtin_routes(),
    {
        ProviderRouter::new()
    }
}

/// The characters of an optional string slice.
pub open spec fn spec_str_view(s: Option<&str>) -> Option<Seq<char>> {
    match s {
        Some(s) => Some(s@),
        None => None,
    }
}

/// The characters of each string slice of a list.
pub open spec fn strs_view(list: Seq<&str>) -> Seq<Seq<char>> {
    Seq::new(list.len(), |i: int| list[i]@)
}

/// The countries served over mobile money: code, name and the providers
/// in each.
pub open spec fn country_table() -> Seq<(&'static str, &'static str, Seq<&'static str>)> {
    seq![
        ("KE", "Kenya", seq!["M-PESA", "Airtel Money"]),
        ("TZ", "Tanzania", seq!["M-PESA", "TigoPesa", "Airtel Money"]),
        ("UG", "Uganda", seq!["MTN MoMo", "Airtel Money"]),
        ("RW", "Rwanda", seq!["MTN MoMo", "Airtel Money"]),
        ("ET", "Ethiopia", seq!["Telebirr"]),
        ("NG", "Nigeria", seq!["Flutterwave", "Paystack", "OPay"]),
        ("GH", "Ghana", seq!["MTN MoMo", "Vodafone Cash", "AirtelTigo"]),
        ("SN", "Senegal", seq!["Wave", "Orange Money"]),
        ("CI", "Côte d'Ivoire", seq!["Wave", "Orange Money", "MTN MoMo"]),
        ("CM", "Cameroon", seq!["MTN MoMo", "Orange Money"]),
        ("ZA", "South Africa", seq!["Flutterwave", "Paystack"]),
        ("ZW", "Zimbabwe", seq!["EcoCash", "OneMoney"]),
        ("ZM", "Zambia", seq!["MTN MoMo", "Airtel Money"]),
        ("MZ", "Mozambique", seq!["M-PESA", "e-Mola"]),
        ("EG", "Egypt", seq!["Vodafone Cash", "Fawry"]),
        ("MA", "Morocco", seq!["Orange Money", "Inwi"]),
    ]
}

/// The rows of a list of countries, each with its providers as a sequence.
pub open spec fn rows_of(list: Seq<(&'static str, &'static str, Vec<&'static str>)>) -> Seq<
    (&'static str, &'static str, Seq<&'static str>),
> {
    Seq::new(list.len(), |i: int| (list[i].0, list[i].1, list[i].2@))
}

/// A copy of a list of names.
fn names(list: &[&'static str]) -> (r: Vec<&'static str>)
    ensures
        r@ == list@,
{
    let mut r: Vec<&'static str> = Vec::new();
    let n: usize = list.len();
    let mut i: usize = 0;
    while i < n
        invariant
            n == list@.len(),
            i <= n,
            r@ == list@.subrange(0, i as int),
        decreases n - i,
    {
        r.push(list[i]);
        assert(r@ =~= list@.subrange(0, i + 1));
        i += 1;
    }
    assert(r@ =~= list@);
    r
}

/// The codes of the countries that are served through payment
/// aggregators, for want of mobile money of their own.
pub open spec fn aggregator_codes() -> Seq<&'static str> {
    seq!["ZA", "NG"]
}

/// What the platform knows of mobile money in Africa.
#[derive(Debug)]
pub struct AfricaMobileMoneyRegistry;

impl AfricaMobileMoneyRegistry {
    /// The countries served, each with its providers.
    pub fn supported_countries() -> (r: Vec<(&'static str, &'static str, Vec<&'static str>)>)
        ensures
            rows_of(r@) == country_table(),
    {
        let mut r: Vec<(&'static str, &'static str, Vec<&'static str>)> = Vec::new();
        let ke = ["M-PESA", "Airtel Money"];
        assert(ke@ =~= seq!["M-PESA", "Airtel Money"]);
        r.push(("KE", "Kenya", names(&ke)));
        let tz = ["M-PESA", "TigoPesa", "Airtel Money"];
        assert(tz@ =~= seq!["M-PESA", "TigoPesa", "Airtel Money"]);
        r.push(("TZ", "Tanzania", names(&tz)));
        let ug = ["MTN MoMo", "Airtel Money"];
        assert(ug@ =~= seq!["MTN MoMo", "Airtel Money"]);
        r.push(("UG", "Uganda", names(&ug)));
        let rw = ["MTN MoMo", "Airtel Money"];
        assert(rw@ =~= seq!["MTN MoMo", "Airtel Money"]);
        r.push(("RW", "Rwanda", names(&rw)));
        let et = ["Telebirr"];
        assert(et@ =~= seq!["Telebirr"]);
        r.push(("ET", "Ethiopia", names(&et)));
        let ng = ["Flutterwave", "Paystack", "OPay"];
        assert(ng@ =~= seq!["Flutterwave", "Paystack", "OPay"]);
        r.push(("NG", "Nigeria", names(&ng)));
        let gh = ["MTN MoMo", "Vodafone Cash", "AirtelTigo"];
        assert(gh@ =~= seq!["MTN MoMo", "Vodafone Cash", "AirtelTigo"]);
        r.push(("GH", "Ghana", names(&gh)));
        let sn = ["Wave", "Orange Money"];
        assert(sn@ =~= seq!["Wave", "Orange Money"]);
        r.push(("SN", "Senegal", names(&sn)));
        let ci = ["Wave", "Orange Money", "MTN MoMo"];
        assert(ci@ =~= seq!["Wave", "Orange Money", "MTN MoMo"]);
        r.push(("CI", "Côte d'Ivoire", names(&ci)));
        let cm = ["MTN MoMo", "Orange Money"];
        assert(cm@ =~= seq!["MTN MoMo", "Orange Money"]);
        r.push(("CM", "Cameroon", names(&cm)));
        let za = ["Flutterwave", "Paystack"];
        assert(za@ =~= seq!["Flutterwave", "Paystack"]);
        r.push(("ZA", "South Africa", names(&za)));
        let zw = ["EcoCash", "OneMoney"];
        assert(zw@ =~= seq!["EcoCash", "OneMoney"]);
        r.push(("ZW", "Zimbabwe", names(&zw)));
        let zm = ["MTN MoMo", "Airtel Money"];
        assert(zm@ =~= seq!["MTN MoMo", "Airtel Money"]);
        r.push(("ZM", "Zambia", names(&zm)));
        let mz = ["M-PESA", "e-Mola"];
        assert(mz@ =~= seq!["M-PESA", "e-Mola"]);
        r.push(("MZ", "Mozambique", names(&mz)));
        let eg = ["Vodafone Cash", "Fawry"];
        assert(eg@ =~= seq!["Vodafone Cash", "Fawry"]);
        r.push(("EG", "Egypt", names(&eg)));
        let ma = ["Orange Money", "Inwi"];
        assert(ma@ =~= seq!["Orange Money", "Inwi"]);
        r.push(("MA", "Morocco", names(&ma)));
        assert(rows_of(r@) =~= country_table());
        r
    }

    /// Whether the country is served through payment aggregators.
    pub fn uses_aggregator(country_code: &str) -> (b: bool)
        ensures
            b == views_of(aggregator_codes()).contains(country_code@),
    {
        let codes = ["ZA", "NG"];
        assert(codes@ =~= aggregator_codes());
        is_one_of(country_code, &codes)
    }
}

} // verus!
