use crate::text::str_eq;
use vstd::prelude::*;

verus! {

/// The kind of site an nginx configuration serves.
#[derive(Clone, Copy, Debug, PartialEq, Eq, Structural)]
pub enum NginxFeatures {
    Redirect,
    Proxy,
    SPA,
    FileHost,
    NoFeature,
}

/// The name a feature is written with (its `Display` text in the database
/// and in responses).
pub open spec fn feature_name(f: NginxFeatures) -> Seq<char> {
    match f {
        NginxFeatures::Proxy => "Proxy"@,
        NginxFeatures::Redirect => "Redirect"@,
        NginxFeatures::FileHost => "FileHost"@,
        NginxFeatures::SPA => "SPA"@,
        NginxFeatures::NoFeature => "None"@,
    }
}

/// The feature a name denotes; each feature is accepted capitalised as
/// written or in lower case, and `NoFeature` has no name.
pub open spec fn feature_from_name(s: Seq<char>) -> Result<NginxFeatures, ()> {
    if s == "Proxy"@ || s == "proxy"@ {
        Ok(NginxFeatures::Proxy)
    } else if s == "Redirect"@ || s == "redirect"@ {
        Ok(NginxFeatures::Redirect)
    } else if s == "FileHost"@ || s == "filehost"@ {
        Ok(NginxFeatures::FileHost)
    } else if s == "SPA"@ || s == "spa"@ {
        Ok(NginxFeatures::SPA)
    } else {
        Err(())
    }
}

impl NginxFeatures {
    /// The feature's name.
    pub fn to_string(&self) -> (r: String)
        ensures
            r@ == feature_name(*self),
    {
        match self {
            NginxFeatures::Proxy => String::from_str("Proxy"),
            NginxFeatures::Redirect => String::from_str("Redirect"),
            NginxFeatures::FileHost => String::from_str("FileHost"),
            NginxFeatures::SPA => String::from_str("SPA"),
            NginxFeatures::NoFeature => String::from_str("None"),
        }
    }

    /// Reads a feature from its name.
    pub fn from_str(s: &str) -> (r: Result<NginxFeatures, ()>)
        ensures
            r == feature_from_name(s@),
    {
        if str_eq(s, "Proxy") || str_eq(s, "proxy") {
            Ok(NginxFeatures::Proxy)
        } else if str_eq(s, "Redirect") || str_eq(s, "redirect") {
            Ok(NginxFeatures::Redirect)
        } else if str_eq(s, "FileHost") || str_eq(s, "filehost") {
            Ok(NginxFeatures::FileHost)
        } else if str_eq(s, "SPA") || str_eq(s, "spa") {
            Ok(NginxFeatures::SPA)
        } else {
            Err(())
        }
    }
}

impl Default for NginxFeatures {
    fn default() -> (r: Self)
        ensures
            r == NginxFeatures::NoFeature,
    {
        NginxFeatures::NoFeature
    }
}

/// Every feature but `NoFeature` is read back from its own name.
pub proof fn lemma_feature_name_roundtrip(f: NginxFeatures)
    requires
        f != NginxFeatures::NoFeature,
    ensures
        feature_from_name(feature_name(f)) == Ok::<NginxFeatures, ()>(f),
{
    reveal_strlit("Proxy");
    reveal_strlit("proxy");
    reveal_strlit("Redirect");
    reveal_strlit("redirect");
    reveal_strlit("FileHost");
    reveal_strlit("filehost");
    reveal_strlit("SPA");
    reveal_strlit("spa");
    let n = feature_name(f);
    if f == NginxFeatures::Redirect {
        assert(n[0] != "Proxy"@[0]);
        assert(n[0] != "proxy"@[0]);
    } else if f == NginxFeatures::FileHost {
        assert(n[0] != "Proxy"@[0]);
        assert(n[0] != "proxy"@[0]);
        assert(n[0] != "Redirect"@[0]);
        assert(n[0] != "redirect"@[0]);
    } else if f == NginxFeatures::SPA {
        assert(n.len() != "Proxy"@.len());
        assert(n.len() != "proxy"@.len());
        assert(n[0] != "Redirect"@[0]);
        assert(n[0] != "redirect"@[0]);
        assert(n[0] != "FileHost"@[0]);
        assert(n[0] != "filehost"@[0]);
    }
}

/// The name of `NoFeature` denotes no feature.
pub proof fn lemma_none_has_no_name()
    ensures
        feature_from_name(feature_name(NginxFeatures::NoFeature)) == Err::<NginxFeatures, ()>(()),
{
    reveal_strlit("None");
    reveal_strlit("Proxy");
    reveal_strlit("proxy");
    reveal_strlit("Redirect");
    reveal_strlit("redirect");
    reveal_strlit("FileHost");
    reveal_strlit("filehost");
    reveal_strlit("SPA");
    reveal_strlit("spa");
    let n = "None"@;
    assert(n[0] != "Proxy"@[0]);
    assert(n[0] != "proxy"@[0]);
    assert(n[0] != "Redirect"@[0]);
    assert(n[0] != "redirect"@[0]);
    assert(n[0] != "FileHost"@[0]);
    assert(n[0] != "filehost"@[0]);
    assert(n.len() != "SPA"@.len());
    assert(n.len() != "spa"@.len());
}

} // verus!
