use super::features::NginxFeatures;
use super::target_site::{targets_of, TargetSite, TargetSpec};
use crate::bindings::{parse_url, url_parse_outcome, UrlParts};
use crate::text::path_is_absolute;
use vstd::prelude::*;

verus! {

/// What a URL parse gives: scheme and domain, or the error text.
pub type UrlOutcome = Result<(Seq<char>, Option<Seq<char>>), Seq<char>>;

/// An error reply: an HTTP status code and a message.
pub type Reply = (u16, String);

/// The mathematical value of an error reply.
pub type ReplySpec = (u16, Seq<char>);

/// The value of a `Result` whose error is a reply.
pub open spec fn reply_result<T>(r: Result<T, Reply>) -> Result<T, ReplySpec> {
    match r {
        Ok(t) => Ok(t),
        Err((c, m)) => Err((c, m@)),
    }
}

/// The value of an exec URL parse result.
pub open spec fn outcome_of(r: Result<UrlParts, String>) -> UrlOutcome {
    match r {
        Ok(p) => Ok((p.scheme@, p.domain.deep_view())),
        Err(e) => Err(e@),
    }
}

/// The values of a list of exec URL parse results.
pub open spec fn outcomes_of(v: Seq<Result<UrlParts, String>>) -> Seq<UrlOutcome> {
    Seq::new(v.len(), |i: int| outcome_of(v[i]))
}

/// The scheme of a successful parse.
pub open spec fn scheme_of(p: UrlOutcome) -> Option<Seq<char>> {
    match p {
        Ok((s, _)) => Some(s),
        Err(_) => None,
    }
}

/// The mathematical value of an `NginxObj`.
pub struct NginxObjView {
    pub server_name: Seq<char>,
    pub target_site: TargetSpec,
    pub feature: NginxFeatures,
}

/// One nginx site: its server name, where it points, and its kind.
pub struct NginxObj {
    server_name: String,
    target_site: TargetSite,
    feature: NginxFeatures,
}

impl View for NginxObj {
    type V = NginxObjView;

    closed spec fn view(&self) -> NginxObjView {
        NginxObjView {
            server_name: self.server_name@,
            target_site: self.target_site@,
            feature: self.feature,
        }
    }
}

/// The first target of a site (`Single` or a non-empty `Multiple`).
pub open spec fn first_target(t: TargetSpec) -> Seq<char> {
    targets_of(t)[0]
}

/// A site has a first target.
pub open spec fn has_first_target(t: TargetSpec) -> bool {
    targets_of(t).len() > 0
}

/// The URL parse outcomes of a site's targets, in order.
pub open spec fn target_outcomes(o: NginxObjView) -> Seq<UrlOutcome> {
    targets_of(o.target_site).map_values(|t: Seq<char>| url_parse_outcome(t))
}

/// The index, from `j` on, of the first outcome that failed or whose scheme
/// is not `scheme`, or the number of outcomes.
pub open spec fn first_off_scheme(ps: Seq<UrlOutcome>, scheme: Seq<char>, j: int) -> int
    decreases ps.len() - j,
{
    if j < 0 || j >= ps.len() {
        ps.len() as int
    } else if scheme_of(ps[j]) != Some(scheme) {
        j
    } else {
        first_off_scheme(ps, scheme, j + 1)
    }
}

/// The index of the first proxy upstream that fails to parse or has another
/// scheme than the first one.
pub open spec fn proxy_off_index(ps: Seq<UrlOutcome>) -> int {
    first_off_scheme(ps, scheme_of(ps[0])->0, 0)
}

/// Validation cannot complete: an unsupported feature or missing target, or
/// (for proxies) upstream URLs that cannot be parsed before a scheme mismatch.
pub open spec fn verify_stops(o: NginxObjView, taken: bool, ps: Seq<UrlOutcome>) -> bool {
    !taken && match o.feature {
        NginxFeatures::Redirect | NginxFeatures::SPA | NginxFeatures::FileHost => o.target_site is NoTarget,
        NginxFeatures::Proxy => match o.target_site {
            TargetSpec::NoTarget => true,
            TargetSpec::Single(_) => false,
            TargetSpec::Multiple(m) => ps.len() == 0 || ps[0] is Err || {
                let j = proxy_off_index(ps);
                j < ps.len() && ps[j] is Err
            },
        },
        NginxFeatures::NoFeature => true,
    }
}

/// The reply for a target URL parse.
pub open spec fn target_check(p: UrlOutcome) -> Result<(), ReplySpec> {
    match p {
        Ok(_) => Ok(()),
        Err(e) => Err((400u16, "Target Site Arg Error: "@ + e)),
    }
}

/// A path is absolute on Unix when it begins with `/`.
pub open spec fn is_absolute_path(p: Seq<char>) -> bool {
    p.len() > 0 && p[0] == '/'
}

/// The validation result of a site, given whether its server name is
/// already taken and the URL parse outcomes of its targets.
pub open spec fn verify_result(o: NginxObjView, taken: bool, ps: Seq<UrlOutcome>) -> Result<
    (),
    ReplySpec,
> {
    if taken {
        Err((400u16, "Server Name Arg Error: Already Existed"@))
    } else {
        match o.feature {
            NginxFeatures::Redirect => match o.target_site {
                TargetSpec::Single(_) => target_check(ps[0]),
                _ => Err((400u16, "Target Site Arg Error: Too many Args"@)),
            },
            NginxFeatures::Proxy => match o.target_site {
                TargetSpec::Single(_) => target_check(ps[0]),
                _ => if proxy_off_index(ps) < ps.len() {
                    Err((400u16, "Server Name Arg Error: Mismatch Protocol in Target Site"@))
                } else {
                    Ok(())
                },
            },
            _ => match o.target_site {
                TargetSpec::Single(t) => if is_absolute_path(t) {
                    Ok(())
                } else {
                    Err((400u16, "Target Site Arg Error: Path not Absolute"@))
                },
                _ => Err((400u16, "Target Site Arg Error: Too many Args"@)),
            },
        }
    }
}

fn reply(code: u16, msg: &str) -> (r: Reply)
    ensures
        r.0 == code,
        r.1@ == msg@,
{
    (code, String::from_str(msg))
}

impl NginxObj {
    pub fn get_server_name(&self) -> (r: &str)
        ensures
            r@ == self@.server_name,
    {
        self.server_name.as_str()
    }

    pub fn get_target_site(&self) -> (r: &TargetSite)
        ensures
            r@ == self@.target_site,
    {
        &self.target_site
    }

    pub fn get_feature(&self) -> (r: &NginxFeatures)
        ensures
            *r == self@.feature,
    {
        &self.feature
    }

    /// Builds a site without validating it.
    pub fn new_unchecked(server_name: String, target_site: TargetSite, feature: NginxFeatures) -> (r:
        NginxObj)
        ensures
            r@ == (NginxObjView { server_name: server_name@, target_site: target_site@, feature }),
    {
        NginxObj { server_name, target_site, feature }
    }

    /// The scheme of the first target's URL.
    pub fn get_target_site_protocol(&self) -> (r: String)
        requires
            has_first_target(self@.target_site),
            url_parse_outcome(first_target(self@.target_site)) is Ok,
        ensures
            Some(r@) == scheme_of(url_parse_outcome(first_target(self@.target_site))),
    {
        let first: &String = match &self.target_site {
            TargetSite::Single(s) => s,
            TargetSite::Multiple(m) => &m[0],
            TargetSite::NoTarget => unreached(),
        };
        proof {
            if self.target_site is Multiple {
                assert(self@.target_site == TargetSpec::Multiple(self.target_site->Multiple_0.deep_view()));
                assert(first@ == self.target_site->Multiple_0.deep_view()[0]);
            }
        }
        match parse_url(first.as_str()) {
            Ok(p) => p.scheme,
            Err(_) => unreached(),
        }
    }

    /// Validates the site from the URL parse results of its targets (one per
    /// target, in order) and whether its server name is already taken.
    pub fn verify_with(&self, taken: bool, parses: &Vec<Result<UrlParts, String>>) -> (r: Result<
        (),
        Reply,
    >)
        requires
            parses@.len() == targets_of(self@.target_site).len(),
            !verify_stops(self@, taken, outcomes_of(parses@)),
        ensures
            reply_result(r) == verify_result(self@, taken, outcomes_of(parses@)),
    {
        let ghost ps = outcomes_of(parses@);
        if taken {
            return Err(reply(400, "Server Name Arg Error: Already Existed"));
        }
        match self.feature {
            NginxFeatures::Redirect | NginxFeatures::Proxy => {
                match &self.target_site {
                    TargetSite::Single(_) => {
                        assert(ps[0] == outcome_of(parses@[0]));
                        match &parses[0] {
                            Ok(_) => Ok(()),
                            Err(e) => {
                                let mut m = String::from_str("Target Site Arg Error: ");
                                m.append(e.as_str());
                                Err((400, m))
                            },
                        }
                    },
                    TargetSite::Multiple(_) => {
                        if self.feature == NginxFeatures::Redirect {
                            Err(reply(400, "Target Site Arg Error: Too many Args"))
                        } else {
                            let off = Self::off_scheme_index(parses);
                            if off < parses.len() {
                                Err(
                                    reply(400, "Server Name Arg Error: Mismatch Protocol in Target Site"),
                                )
                            } else {
                                Ok(())
                            }
                        }
                    },
                    TargetSite::NoTarget => unreached(),
                }
            },
            NginxFeatures::SPA | NginxFeatures::FileHost => {
                match &self.target_site {
                    TargetSite::Single(t) => {
                        if path_is_absolute(t.as_str()) {
                            Ok(())
                        } else {
                            Err(reply(400, "Target Site Arg Error: Path not Absolute"))
                        }
                    },
                    TargetSite::Multiple(_) => Err(reply(400, "Target Site Arg Error: Too many Args")),
                    TargetSite::NoTarget => unreached(),
                }
            },
            NginxFeatures::NoFeature => unreached(),
        }
    }

    /// The index of the first parse result that failed or whose scheme
    /// differs from the first one's.
    fn off_scheme_index(parses: &Vec<Result<UrlParts, String>>) -> (j: usize)
        requires
            parses@.len() > 0,
            parses@[0] is Ok,
        ensures
            j == proxy_off_index(outcomes_of(parses@)),
    {
        let ghost ps = outcomes_of(parses@);
        let first_scheme: &String = match &parses[0] {
            Ok(p) => &p.scheme,
            Err(_) => unreached(),
        };
        assert(scheme_of(ps[0]) == Some(first_scheme@));
        let mut j: usize = 0;
        while j < parses.len()
            invariant
                0 <= j <= parses@.len(),
                ps == outcomes_of(parses@),
                scheme_of(ps[0]) == Some(first_scheme@),
                first_off_scheme(ps, first_scheme@, 0) == first_off_scheme(ps, first_scheme@, j as int),
            decreases parses.len() - j,
        {
            assert(ps[j as int] == outcome_of(parses@[j as int]));
            let same = match &parses[j] {
                Ok(p) => crate::text::str_eq(p.scheme.as_str(), first_scheme.as_str()),
                Err(_) => false,
            };
            if !same {
                return j;
            }
            j = j + 1;
        }
        j
    }

    /// Validates the site: the server name must not be taken already, and the
    /// target must suit the feature (parseable URLs of one scheme for
    /// proxies, a parseable URL for redirects, an absolute path for file
    /// hosting and single-page apps). `None` where validation cannot complete.
    pub fn verify(&self, taken: bool) -> (r: Option<Result<(), Reply>>)
        ensures
            match r {
                None => verify_stops(self@, taken, target_outcomes(self@)),
                Some(res) => !verify_stops(self@, taken, target_outcomes(self@)) && reply_result(res)
                    == verify_result(self@, taken, target_outcomes(self@)),
            },
    {
        let parses = self.parse_targets();
        proof {
            assert(outcomes_of(parses@) =~= target_outcomes(self@));
        }
        if self.stops(taken, &parses) {
            None
        } else {
            Some(self.verify_with(taken, &parses))
        }
    }

    fn parse_targets(&self) -> (v: Vec<Result<UrlParts, String>>)
        ensures
            v@.len() == targets_of(self@.target_site).len(),
            forall|i: int|
                0 <= i < v@.len() ==> outcome_of(#[trigger] v@[i]) == url_parse_outcome(
                    targets_of(self@.target_site)[i],
                ),
    {
        let mut v: Vec<Result<UrlParts, String>> = Vec::new();
        match &self.target_site {
            TargetSite::NoTarget => {},
            TargetSite::Single(s) => {
                v.push(parse_url(s.as_str()));
            },
            TargetSite::Multiple(m) => {
                let ghost dm = m.deep_view();
                let mut i: usize = 0;
                while i < m.len()
                    invariant
                        0 <= i <= m@.len(),
                        dm == m.deep_view(),
                        self@.target_site == TargetSpec::Multiple(dm),
                        v@.len() == i,
                        forall|k: int|
                            0 <= k < i ==> outcome_of(#[trigger] v@[k]) == url_parse_outcome(dm[k]),
                    decreases m.len() - i,
                {
                    assert(dm[i as int] == m@[i as int]@);
                    v.push(parse_url(m[i].as_str()));
                    i = i + 1;
                }
            },
        }
        v
    }

    fn stops(&self, taken: bool, parses: &Vec<Result<UrlParts, String>>) -> (b: bool)
        requires
            parses@.len() == targets_of(self@.target_site).len(),
        ensures
            b == verify_stops(self@, taken, outcomes_of(parses@)),
    {
        let ghost ps = outcomes_of(parses@);
        if taken {
            return false;
        }
        match self.feature {
            NginxFeatures::Redirect | NginxFeatures::SPA | NginxFeatures::FileHost => {
                match &self.target_site {
                    TargetSite::NoTarget => true,
                    _ => false,
                }
            },
            NginxFeatures::Proxy => {
                match &self.target_site {
                    TargetSite::NoTarget => true,
                    TargetSite::Single(_) => false,
                    TargetSite::Multiple(_) => {
                        if parses.len() == 0 {
                            return true;
                        }
                        assert(ps[0] == outcome_of(parses@[0]));
                        if parses[0].is_err() {
                            return true;
                        }
                        let j = Self::off_scheme_index(parses);
                        if j < parses.len() {
                            assert(ps[j as int] == outcome_of(parses@[j as int]));
                            parses[j].is_err()
                        } else {
                            false
                        }
                    },
                }
            },
            NginxFeatures::NoFeature => true,
        }
    }

    /// Builds and validates a site (see `verify`); `None` where validation
    /// cannot complete.
    pub fn new(server_name: String, target_site: TargetSite, feature: NginxFeatures, taken: bool) -> (r:
        Option<Result<NginxObj, Reply>>)
        ensures
            ({
                let o = NginxObjView { server_name: server_name@, target_site: target_site@, feature };
                match r {
                    None => verify_stops(o, taken, target_outcomes(o)),
                    Some(Ok(obj)) => obj@ == o && !verify_stops(o, taken, target_outcomes(o))
                        && verify_result(o, taken, target_outcomes(o)) is Ok,
                    Some(Err((c, m))) => !verify_stops(o, taken, target_outcomes(o)) && verify_result(
                        o,
                        taken,
                        target_outcomes(o),
                    ) == Err::<(), ReplySpec>((c, m@)),
                }
            }),
    {
        let data = NginxObj { server_name, target_site, feature };
        match data.verify(taken) {
            None => None,
            Some(Ok(())) => Some(Ok(data)),
            Some(Err(e)) => Some(Err(e)),
        }
    }
}

impl Default for NginxObj {
    fn default() -> (r: Self)
        ensures
            r@ == (NginxObjView {
                server_name: Seq::empty(),
                target_site: TargetSpec::NoTarget,
                feature: NginxFeatures::NoFeature,
            }),
    {
        NginxObj {
            server_name: String::new(),
            target_site: TargetSite::NoTarget,
            feature: NginxFeatures::NoFeature,
        }
    }
}

} // verus!
