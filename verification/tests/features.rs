use hosting_helper::nginx::features::NginxFeatures;

#[test]
fn feature_names_read_back() {
    for f in [NginxFeatures::Redirect, NginxFeatures::Proxy, NginxFeatures::SPA, NginxFeatures::FileHost] {
        let name = f.to_string();
        assert_eq!(NginxFeatures::from_str(name.as_str()), Ok(f));
    }
}
