//! What is told about the address a request came from.
use vstd::prelude::*;

verus! {

/// Location and network of an IP address, as far as the databases know them.
#[derive(Clone, Debug, Default)]
pub struct IpInformation {
    pub city: Option<String>,
    pub country: Option<String>,
    pub country_code: Option<String>,
    pub asn: Option<u32>,
    pub isp: Option<String>,
}

/// The fields read from a city-database record.
#[derive(Clone, Debug)]
pub struct CityRecord {
    /// English name of the city.
    pub city_name: Option<String>,
    /// English name of the country.
    pub country_name: Option<String>,
    /// ISO 3166-1 code of the country.
    pub country_iso_code: Option<String>,
}

/// The fields read from an ASN-database record.
#[derive(Clone, Debug)]
pub struct AsnRecord {
    pub number: Option<u32>,
    pub organization: Option<String>,
}

/// Every field is taken from the record that holds it; a missing record leaves its fields empty.
pub open spec fn describes(info: IpInformation, city: Option<CityRecord>, asn: Option<AsnRecord>) -> bool {
    &&& info.city == (match city {
        Some(c) => c.city_name,
        None => None,
    })
    &&& info.country == (match city {
        Some(c) => c.country_name,
        None => None,
    })
    &&& info.country_code == (match city {
        Some(c) => c.country_iso_code,
        None => None,
    })
    &&& info.asn == (match asn {
        Some(a) => a.number,
        None => None,
    })
    &&& info.isp == (match asn {
        Some(a) => a.organization,
        None => None,
    })
}

impl IpInformation {
    /// Puts together what the city and ASN records, when found, say of an address.
    pub fn from_records(city: Option<CityRecord>, asn: Option<AsnRecord>) -> (res: IpInformation)
        ensures
            describes(res, city, asn),
    {
        let (city_name, country, country_code) = match city {
            Some(c) => (c.city_name, c.country_name, c.country_iso_code),
            None => (None, None, None),
        };
        let (number, isp) = match asn {
            Some(a) => (a.number, a.organization),
            None => (None, None),
        };
        IpInformation { city: city_name, country, country_code, asn: number, isp }
    }
}

/// Law: each field comes from its own record field alone: a found city
/// record gives city, country and country code each from its own field,
/// whatever the others hold; a found ASN record gives number and provider;
/// a record that was not found leaves its fields empty.
pub proof fn law_each_field_from_its_own_record(
    info: IpInformation,
    city: Option<CityRecord>,
    asn: Option<AsnRecord>,
)
    requires
        describes(info, city, asn),
    ensures
        city matches Some(c) ==> info.city == c.city_name && info.country == c.country_name
            && info.country_code == c.country_iso_code,
        city is None ==> info.city is None && info.country is None && info.country_code is None,
        asn matches Some(a) ==> info.asn == a.number && info.isp == a.organization,
        asn is None ==> info.asn is None && info.isp is None,
{
}

} // verus!
