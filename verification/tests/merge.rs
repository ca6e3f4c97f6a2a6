use ngx::base::{Addr, Array, NGX_CONF_ERROR, NGX_CONF_OK};
use ngx::http::conf::command::dispatch;
use ngx::http::{merge_optional, merge_required, Flag, Merge, MergeConfigError};

fn directive(words: &[&str]) -> Option<Array<Vec<u8>>> {
    Some(Array::new(Addr::new(0x7000).unwrap(), words.iter().map(|w| w.as_bytes().to_vec()).collect()))
}

/// A value with a switch, a text that is needed while the switch is on, and a
/// text that has a default.
#[derive(Debug, Default, Clone, PartialEq)]
struct Config {
    enable: Flag,
    access_key: String,
    endpoint: String,
}

impl Merge for Config {
    fn merge(&mut self, prev: &Config) -> Result<(), MergeConfigError> {
        self.enable.merge(&prev.enable)?;
        merge_required(&mut self.access_key, &prev.access_key, self.enable.enabled())?;
        merge_optional(&mut self.endpoint, &prev.endpoint, "s3.amazonaws.com");
        Ok(())
    }
}

fn set_enable(conf: &mut Config, args: Array<Vec<u8>>) -> Result<(), ()> {
    conf.enable.set(args)
}

#[test]
fn on_in_any_case_turns_the_switch_on() {
    assert_eq!(Flag::parse(b"on"), Ok(Flag::On));
    assert_eq!(Flag::parse(b"ON"), Ok(Flag::On));
    assert_eq!(Flag::parse(b"On"), Ok(Flag::On));
    assert_eq!(Flag::parse(b"oN"), Ok(Flag::On));
    assert!(Flag::parse(b"On").unwrap().enabled());
}

#[test]
fn off_in_any_case_turns_the_switch_off() {
    assert_eq!(Flag::parse(b"off"), Ok(Flag::Off));
    assert_eq!(Flag::parse(b"OFF"), Ok(Flag::Off));
    assert_eq!(Flag::parse(b"oFf"), Ok(Flag::Off));
    assert!(!Flag::parse(b"OFF").unwrap().enabled());
    assert!(Flag::parse(b"OFF").unwrap().is_set());
}

#[test]
fn any_other_token_is_refused() {
    for token in [
        &b""[..], b"o", b"of", b"offf", b"onn", b"yes", b"no", b"1", b"0", b"true", b"on ", b" on", b"0n", b"\xefn",
        b"o\xce", b"oN\0", b"OF", b"ofF ", b"enable",
    ] {
        assert_eq!(Flag::parse(token), Err(()));
    }
}

#[test]
fn the_flag_handler_takes_exactly_one_argument() {
    let mut flag = Flag::Unset;
    assert_eq!(flag.set(directive(&["on"]).unwrap()), Ok(()));
    assert_eq!(flag, Flag::On);
    assert_eq!(flag.set(directive(&["OFF"]).unwrap()), Ok(()));
    assert_eq!(flag, Flag::Off);
    assert_eq!(flag.set(directive(&["maybe"]).unwrap()), Err(()));
    assert_eq!(flag, Flag::Off);
    assert_eq!(flag.set(directive(&[]).unwrap()), Err(()));
    assert_eq!(flag.set(directive(&["on", "on"]).unwrap()), Err(()));
    assert_eq!(flag, Flag::Off);
}

#[test]
fn a_wrong_token_fails_the_directive_and_sets_nothing() {
    let mut conf = Config::default();
    assert_eq!(dispatch(&set_enable, Some(&mut conf), directive(&["feature", "enabled"])), NGX_CONF_ERROR);
    assert_eq!(conf.enable, Flag::Unset);
    assert_eq!(dispatch(&set_enable, Some(&mut conf), directive(&["feature", "On"])), NGX_CONF_OK);
    assert_eq!(conf.enable, Flag::On);
}

#[test]
fn a_new_switch_is_unset_and_not_enabled() {
    assert_eq!(Flag::default(), Flag::Unset);
    assert!(!Flag::default().is_set());
    assert!(!Flag::default().enabled());
}

#[test]
fn an_unset_switch_takes_the_state_around_it() {
    for prev in [Flag::Unset, Flag::Off, Flag::On] {
        let mut flag = Flag::Unset;
        assert_eq!(flag.merge(&prev), Ok(()));
        assert_eq!(flag, prev);
    }
}

#[test]
fn a_set_switch_stays_as_it_is() {
    for own in [Flag::Off, Flag::On] {
        for prev in [Flag::Unset, Flag::Off, Flag::On] {
            let mut flag = own;
            assert_eq!(flag.merge(&prev), Ok(()));
            assert_eq!(flag, own);
        }
    }
}

#[test]
fn merging_with_a_default_parent_changes_nothing_that_is_set() {
    let mut conf = Config { enable: Flag::On, access_key: "key".into(), endpoint: "example.org".into() };
    let before = conf.clone();
    assert_eq!(conf.merge(&Config::default()), Ok(()));
    assert_eq!(conf, before);

    let mut off = Config { enable: Flag::Off, ..Config::default() };
    assert_eq!(off.merge(&Config::default()), Ok(()));
    assert_eq!(off.enable, Flag::Off);
    assert_eq!(off.access_key, "");
    assert_eq!(off.endpoint, "s3.amazonaws.com");
    let once = off.clone();
    assert_eq!(off.merge(&Config::default()), Ok(()));
    assert_eq!(off, once);
}

#[test]
fn what_an_outer_tier_has_set_reaches_the_route() {
    let global = Config { enable: Flag::On, access_key: "global".into(), endpoint: String::new() };
    let mut group = Config::default();
    let mut route = Config::default();
    assert_eq!(group.merge(&global), Ok(()));
    assert_eq!(route.merge(&group), Ok(()));
    assert_eq!(route.access_key, "global");
    assert_eq!(route.endpoint, "s3.amazonaws.com");
    assert!(route.enable.enabled());

    let global = Config::default();
    let mut group = Config { access_key: "group".into(), endpoint: "group.example".into(), ..Config::default() };
    let mut route = Config { access_key: "route".into(), ..Config::default() };
    assert_eq!(group.merge(&global), Ok(()));
    assert_eq!(route.merge(&group), Ok(()));
    assert_eq!(route.access_key, "route");
    assert_eq!(route.endpoint, "group.example");
    assert!(!route.enable.enabled());
}

#[test]
fn enable_reaches_every_tier_within() {
    for (global, group, route) in [
        (Flag::On, Flag::Unset, Flag::Unset),
        (Flag::On, Flag::On, Flag::Unset),
        (Flag::Unset, Flag::On, Flag::Unset),
        (Flag::Off, Flag::On, Flag::Unset),
        (Flag::On, Flag::Unset, Flag::On),
    ] {
        let mut group = group;
        let mut route = route;
        group.merge(&global).unwrap();
        route.merge(&group).unwrap();
        assert!(group.enabled());
        assert!(route.enabled());
    }
}

#[test]
fn feature_on_at_global_and_off_at_route_stays_off() {
    let mut global = Config::default();
    let mut group = Config::default();
    let mut route = Config::default();
    assert_eq!(dispatch(&set_enable, Some(&mut global), directive(&["feature", "on"])), NGX_CONF_OK);
    assert_eq!(dispatch(&set_enable, Some(&mut route), directive(&["feature", "off"])), NGX_CONF_OK);
    global.access_key = "key".into();

    assert_eq!(group.merge(&global), Ok(()));
    assert_eq!(group.enable, Flag::On);
    assert!(group.enable.enabled());
    assert_eq!(route.merge(&group), Ok(()));
    assert_eq!(route.enable, Flag::Off);
    assert!(!route.enable.enabled());
}

#[test]
fn a_missing_required_value_fails_where_the_feature_is_enabled() {
    // enabled at the route only: the group merges, the route fails
    let global = Config::default();
    let mut group = Config::default();
    let mut route = Config { enable: Flag::On, ..Config::default() };
    assert_eq!(group.merge(&global), Ok(()));
    assert!(matches!(route.merge(&group), Err(MergeConfigError::NoValue)));

    // enabled at the global tier: the group is the first to fail
    let global = Config { enable: Flag::On, ..Config::default() };
    let mut group = Config::default();
    assert!(matches!(group.merge(&global), Err(MergeConfigError::NoValue)));

    // enabled at the group
    let global = Config::default();
    let mut group = Config { enable: Flag::On, ..Config::default() };
    assert!(matches!(group.merge(&global), Err(MergeConfigError::NoValue)));

    // not enabled anywhere: nothing is missing
    let mut group = Config::default();
    let mut route = Config::default();
    assert_eq!(group.merge(&Config::default()), Ok(()));
    assert_eq!(route.merge(&group), Ok(()));
    assert_eq!(route.access_key, "");
}

#[test]
fn a_required_text_is_taken_from_the_parent_when_unset() {
    let mut value = String::new();
    assert_eq!(merge_required(&mut value, &"parent".to_string(), true), Ok(()));
    assert_eq!(value, "parent");

    let mut value = "own".to_string();
    assert_eq!(merge_required(&mut value, &"parent".to_string(), true), Ok(()));
    assert_eq!(value, "own");

    let mut value = String::new();
    assert_eq!(merge_required(&mut value, &String::new(), true), Err(MergeConfigError::NoValue));
    assert_eq!(value, "");

    let mut value = String::new();
    assert_eq!(merge_required(&mut value, &String::new(), false), Ok(()));
    assert_eq!(value, "");
}

#[test]
fn an_optional_text_falls_back_to_the_default() {
    let mut value = String::new();
    merge_optional(&mut value, &String::new(), "s3.amazonaws.com");
    assert_eq!(value, "s3.amazonaws.com");

    let mut value = String::new();
    merge_optional(&mut value, &"parent".to_string(), "default");
    assert_eq!(value, "parent");

    let mut value = "own".to_string();
    merge_optional(&mut value, &"parent".to_string(), "default");
    assert_eq!(value, "own");

    let mut value = String::new();
    merge_optional(&mut value, &String::new(), "");
    assert_eq!(value, "");
}

#[test]
fn the_unit_value_merges_with_anything() {
    let mut unit = ();
    assert_eq!(unit.merge(&()), Ok(()));
}

#[test]
fn the_merge_error_reads_no_value() {
    assert_eq!(MergeConfigError::NoValue.to_string(), "no value");
}
