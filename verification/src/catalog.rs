//! The catalog of known patch manifests: descriptors a caller picks from
//! when starting a download, and the built-in stand-in data used while no
//! live catalog source is wired up.

use vstd::prelude::*;

verus! {

/// One catalog entry describing a downloadable patch manifest.
#[derive(Debug)]
pub struct PatchManifest {
    pub version: String,
    pub date: String,
    pub size: String,
    pub content: String,
    pub manifest: String,
    pub languages: Vec<String>,
    pub region: String,
}

/// Two catalog entries with the same content. (Entries are compared by
/// content: the language list counts by its elements.)
pub open spec fn same_entry(a: PatchManifest, b: PatchManifest) -> bool {
    &&& a.version == b.version
    &&& a.date == b.date
    &&& a.size == b.size
    &&& a.content == b.content
    &&& a.manifest == b.manifest
    &&& a.languages@ == b.languages@
    &&& a.region == b.region
}

impl PatchManifest {
    /// A field-for-field copy of the entry.
    pub fn duplicate(&self) -> (r: PatchManifest)
        ensures
            same_entry(r, *self),
    {
        let mut languages: Vec<String> = Vec::new();
        let n = self.languages.len();
        let mut i: usize = 0;
        while i < n
            invariant
                n == self.languages@.len(),
                i <= n,
                languages@.len() == i,
                forall|j: int| 0 <= j < i ==> languages@[j] == self.languages@[j],
            decreases n - i,
        {
            languages.push(self.languages[i].clone());
            i = i + 1;
        }
        proof {
            assert(languages@ =~= self.languages@);
        }
        PatchManifest {
            version: self.version.clone(),
            date: self.date.clone(),
            size: self.size.clone(),
            content: self.content.clone(),
            manifest: self.manifest.clone(),
            languages,
            region: self.region.clone(),
        }
    }
}

/// The scalar fields of one entry, by view.
pub open spec fn manifest_entry_is(
    m: PatchManifest,
    version: Seq<char>,
    date: Seq<char>,
    size: Seq<char>,
    content: Seq<char>,
    manifest: Seq<char>,
    region: Seq<char>,
) -> bool {
    &&& m.version@ == version
    &&& m.date@ == date
    &&& m.size@ == size
    &&& m.content@ == content
    &&& m.manifest@ == manifest
    &&& m.region@ == region
}

/// Exactly the built-in stand-in catalog.
pub open spec fn is_test_catalog(s: Seq<PatchManifest>) -> bool {
    &&& s.len() == 5
    &&& manifest_entry_is(
        s[0],
        "14.17.1"@,
        "2024-08-28"@,
        "2.1 GB"@,
        "assets"@,
        "93A211A9D0F05050.manifest"@,
        "NA"@,
    )
    &&& s[0].languages@.len() == 2
    &&& s[0].languages@[0]@ == "en_us"@
    &&& s[0].languages@[1]@ == "fr_fr"@
    &&& manifest_entry_is(
        s[1],
        "14.17.0"@,
        "2024-08-21"@,
        "1.8 GB"@,
        "assets"@,
        "8B2F119C0E04040.manifest"@,
        "EUW"@,
    )
    &&& s[1].languages@.len() == 3
    &&& s[1].languages@[0]@ == "en_us"@
    &&& s[1].languages@[1]@ == "fr_fr"@
    &&& s[1].languages@[2]@ == "ja_jp"@
    &&& manifest_entry_is(
        s[2],
        "14.16.1"@,
        "2024-08-14"@,
        "2.3 GB"@,
        "sounds"@,
        "7A1E008B0D03030.manifest"@,
        "KR"@,
    )
    &&& s[2].languages@.len() == 2
    &&& s[2].languages@[0]@ == "en_us"@
    &&& s[2].languages@[1]@ == "ko_kr"@
    &&& manifest_entry_is(
        s[3],
        "14.16.0"@,
        "2024-08-07"@,
        "1.9 GB"@,
        "assets"@,
        "690FDD7A0C02020.manifest"@,
        "JP"@,
    )
    &&& s[3].languages@.len() == 3
    &&& s[3].languages@[0]@ == "en_us"@
    &&& s[3].languages@[1]@ == "fr_fr"@
    &&& s[3].languages@[2]@ == "zh_cn"@
    &&& manifest_entry_is(
        s[4],
        "14.15.1"@,
        "2024-07-31"@,
        "2.0 GB"@,
        "assets"@,
        "580ECC690B01010.manifest"@,
        "NA"@,
    )
    &&& s[4].languages@.len() == 1
    &&& s[4].languages@[0]@ == "en_us"@
}

fn entry(
    version: &str,
    date: &str,
    size: &str,
    content: &str,
    manifest: &str,
    languages: Vec<String>,
    region: &str,
) -> (r: PatchManifest)
    ensures
        manifest_entry_is(r, version@, date@, size@, content@, manifest@, region@),
        r.languages == languages,
{
    PatchManifest {
        version: String::from_str(version),
        date: String::from_str(date),
        size: String::from_str(size),
        content: String::from_str(content),
        manifest: String::from_str(manifest),
        languages,
        region: String::from_str(region),
    }
}

/// Stand-in catalog data, in place of a live catalog source.
pub fn get_test_manifests() -> (r: Vec<PatchManifest>)
    ensures
        is_test_catalog(r@),
{
    let mut r: Vec<PatchManifest> = Vec::new();

    let mut langs0: Vec<String> = Vec::new();
    langs0.push(String::from_str("en_us"));
    langs0.push(String::from_str("fr_fr"));
    r.push(entry("14.17.1", "2024-08-28", "2.1 GB", "assets", "93A211A9D0F05050.manifest", langs0, "NA"));

    let mut langs1: Vec<String> = Vec::new();
    langs1.push(String::from_str("en_us"));
    langs1.push(String::from_str("fr_fr"));
    langs1.push(String::from_str("ja_jp"));
    r.push(entry("14.17.0", "2024-08-21", "1.8 GB", "assets", "8B2F119C0E04040.manifest", langs1, "EUW"));

    let mut langs2: Vec<String> = Vec::new();
    langs2.push(String::from_str("en_us"));
    langs2.push(String::from_str("ko_kr"));
    r.push(entry("14.16.1", "2024-08-14", "2.3 GB", "sounds", "7A1E008B0D03030.manifest", langs2, "KR"));

    let mut langs3: Vec<String> = Vec::new();
    langs3.push(String::from_str("en_us"));
    langs3.push(String::from_str("fr_fr"));
    langs3.push(String::from_str("zh_cn"));
    r.push(entry("14.16.0", "2024-08-07", "1.9 GB", "assets", "690FDD7A0C02020.manifest", langs3, "JP"));

    let mut langs4: Vec<String> = Vec::new();
    langs4.push(String::from_str("en_us"));
    r.push(entry("14.15.1", "2024-07-31", "2.0 GB", "assets", "580ECC690B01010.manifest", langs4, "NA"));

    r
}

} // verus!
