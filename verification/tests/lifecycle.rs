use ngx::base::{
    conf_pointer, conf_status, int_status, Addr, Allocation, Array, PoolRequest, Status, NGX_ABORT, NGX_AGAIN,
    NGX_BUSY, NGX_CONF_ERROR, NGX_CONF_OK, NGX_DECLINED, NGX_DONE, NGX_ERROR, NGX_OK,
};
use ngx::http::module::created;
use ngx::http::module_safe::{
    check_record_address, create_loc_conf, create_main_conf, create_srv_conf, init_main_conf, merge_loc_conf,
    merge_srv_conf, postconfiguration, preconfiguration, status_code, NGX_HTTP_PHASES,
};
use ngx::http::{
    Error, Flag, HttpModule, Merge, MergeConfigError, NgxConf, NgxMainConf, Phase, RawHttpModule, SafeHttpModule,
};

const WORD: usize = std::mem::align_of::<usize>();
const CF: usize = 0x10000;
const MODULE: usize = 0x20000;

#[derive(Debug, Default, PartialEq)]
struct Conf {
    enable: Flag,
    key: String,
}

impl Merge for Conf {
    fn merge(&mut self, prev: &Conf) -> Result<(), MergeConfigError> {
        self.enable.merge(&prev.enable)?;
        ngx::http::merge_required(&mut self.key, &prev.key, self.enable.enabled())
    }
}

/// A module that leaves every callback as it is.
struct Plain;

impl HttpModule for Plain {
    type MainConf = ();
    type SrvConf = Conf;
    type LocConf = Conf;
}

/// A module whose callbacks fail wherever they can.
struct Failing;

impl HttpModule for Failing {
    type MainConf = Conf;
    type SrvConf = Conf;
    type LocConf = Conf;

    fn preconfiguration(_: Addr) -> Result<(), ()> {
        Err(())
    }

    fn postconfiguration(_: Addr) -> Result<(), ()> {
        Err(())
    }

    fn create_main_conf(_: Addr) -> Result<Conf, ()> {
        Err(())
    }

    fn init_main_conf(_: Addr, conf: &mut Conf) -> Result<(), ()> {
        conf.key = "seen".into();
        Err(())
    }
}

struct Safe;

impl SafeHttpModule for Safe {
    type MainConf = Conf;
    type SrvConf = Conf;
    type LocConf = Conf;

    fn module() -> usize {
        MODULE
    }
}

struct Declining;

impl SafeHttpModule for Declining {
    type MainConf = Conf;
    type SrvConf = Conf;
    type LocConf = Conf;

    fn module() -> usize {
        MODULE
    }

    fn preconfiguration(_: NgxConf) -> Result<(), Error> {
        Err(Error::Declined)
    }

    fn postconfiguration(_: NgxConf) -> Result<(), Error> {
        Err(Error::Again)
    }

    fn create_main_conf(_: NgxConf) -> Option<Conf> {
        None
    }

    fn init_main_conf(_: NgxConf, _: &mut Conf) -> Result<(), ()> {
        Err(())
    }
}

/// A module that nginx has no record of.
struct Nowhere;

impl SafeHttpModule for Nowhere {
    type MainConf = Conf;
    type SrvConf = Conf;
    type LocConf = Conf;

    fn module() -> usize {
        0
    }
}

#[test]
fn status_codes_are_those_of_nginx() {
    assert_eq!(NGX_OK, 0);
    assert_eq!(NGX_ERROR, -1);
    assert_eq!(NGX_AGAIN, -2);
    assert_eq!(NGX_BUSY, -3);
    assert_eq!(NGX_DONE, -4);
    assert_eq!(NGX_DECLINED, -5);
    assert_eq!(NGX_ABORT, -6);
    assert_eq!(NGX_CONF_OK, 0);
    assert_eq!(NGX_CONF_ERROR, usize::MAX);
    assert!(Status(NGX_OK).is_ok());
    assert!(!Status(NGX_DECLINED).is_ok());
    assert_eq!(isize::from(Status(NGX_BUSY)), -3);
}

#[test]
fn outcomes_become_sentinels() {
    assert_eq!(conf_status::<()>(&Ok(())), 0);
    assert_eq!(conf_status(&Err::<(), _>(MergeConfigError::NoValue)), usize::MAX);
    assert_eq!(int_status::<()>(&Ok(())), 0);
    assert_eq!(int_status(&Err::<(), _>(())), -1);
    assert_eq!(conf_pointer(Addr::new(0x4000)), 0x4000);
    assert_eq!(conf_pointer(None), 0);
    assert_eq!(created(Ok::<u8, ()>(3)), Some(3));
    assert_eq!(created(Err::<u8, ()>(())), None);
}

#[test]
fn an_address_is_tested_for_null() {
    assert_eq!(Addr::new(0), None);
    assert_eq!(Addr::new(1).map(|a| a.get()), Some(1));
    assert_eq!(Addr::from_nonzero(0x1234).get(), 0x1234);
    assert_eq!(Addr::dangling::<u32>().get(), std::mem::align_of::<u32>());
    assert_eq!(Addr::dangling::<()>().get(), 1);
}

#[test]
fn errors_become_their_status_codes() {
    assert_eq!(Status::from(Error::Error), Status(-1));
    assert_eq!(Status::from(Error::Again), Status(-2));
    assert_eq!(Status::from(Error::Busy), Status(-3));
    assert_eq!(Status::from(Error::Declined), Status(-5));
    assert_eq!(Status::from(Error::Abort), Status(-6));
    assert_eq!(status_code(Ok(())), 0);
    assert_eq!(status_code(Err(Error::Error)), -1);
    assert_eq!(status_code(Err(Error::Again)), -2);
    assert_eq!(status_code(Err(Error::Busy)), -3);
    assert_eq!(status_code(Err(Error::Declined)), -5);
    assert_eq!(status_code(Err(Error::Abort)), -6);
}

#[test]
fn phases_are_numbered_in_the_order_they_run() {
    let phases = [
        Phase::PostRead,
        Phase::ServerRewrite,
        Phase::FindConfig,
        Phase::Rewrite,
        Phase::PostRewrite,
        Phase::PreAccess,
        Phase::Access,
        Phase::PostAccess,
        Phase::PreContent,
        Phase::Content,
        Phase::Log,
    ];
    assert_eq!(phases.len(), NGX_HTTP_PHASES);
    for (n, phase) in phases.iter().enumerate() {
        assert_eq!(phase.into_index(), n);
        assert_eq!(u32::from(*phase), n as u32);
    }
}

#[test]
fn the_raw_defaults_succeed_with_a_record_of_the_pass() {
    struct Bare;
    impl RawHttpModule for Bare {
        type MainConf = Conf;
        type SrvConf = Conf;
        type LocConf = Conf;
    }
    assert_eq!(Bare::preconfiguration(CF), NGX_OK);
    assert_eq!(Bare::postconfiguration(CF), NGX_OK);
    assert_eq!(Bare::preconfiguration(0), NGX_ERROR);
    assert_eq!(Bare::postconfiguration(0), NGX_ERROR);
    assert_eq!(Bare::create_main_conf(CF), Some(Conf::default()));
    assert_eq!(Bare::create_srv_conf(CF), Some(Conf::default()));
    assert_eq!(Bare::create_loc_conf(CF), Some(Conf::default()));
    assert_eq!(Bare::create_main_conf(0), None);
    assert_eq!(Bare::create_srv_conf(0), None);
    assert_eq!(Bare::create_loc_conf(0), None);
    let mut conf = Conf::default();
    assert_eq!(Bare::init_main_conf(CF, Some(&mut conf)), NGX_CONF_OK);
    assert_eq!(Bare::init_main_conf(CF, None), NGX_CONF_ERROR);
    assert_eq!(Bare::init_main_conf(0, Some(&mut conf)), NGX_CONF_ERROR);

    let mut prev = Conf { enable: Flag::On, key: "k".into() };
    assert_eq!(Bare::merge_srv_conf(CF, Some(&mut prev), Some(&mut conf)), NGX_CONF_OK);
    assert_eq!(conf, Conf { enable: Flag::On, key: "k".into() });
    let mut conf = Conf::default();
    assert_eq!(Bare::merge_loc_conf(CF, Some(&mut prev), Some(&mut conf)), NGX_CONF_OK);
    assert_eq!(conf, Conf { enable: Flag::On, key: "k".into() });
    assert_eq!(Bare::merge_loc_conf(0, Some(&mut prev), Some(&mut Conf::default())), NGX_CONF_ERROR);
    assert_eq!(Bare::merge_srv_conf(CF, None, Some(&mut conf)), NGX_CONF_ERROR);
    assert_eq!(Bare::merge_srv_conf(CF, Some(&mut prev), None), NGX_CONF_ERROR);
}

#[test]
fn a_typed_module_answers_through_the_raw_callbacks() {
    assert_eq!(<Plain as RawHttpModule>::preconfiguration(CF), NGX_OK);
    assert_eq!(<Plain as RawHttpModule>::postconfiguration(CF), NGX_OK);
    assert_eq!(<Plain as RawHttpModule>::create_main_conf(CF), Some(()));
    assert_eq!(<Plain as RawHttpModule>::create_srv_conf(CF), Some(Conf::default()));
    assert_eq!(<Plain as RawHttpModule>::create_loc_conf(CF), Some(Conf::default()));
    assert_eq!(<Plain as RawHttpModule>::init_main_conf(CF, Some(&mut ())), NGX_CONF_OK);
}

#[test]
fn a_null_context_fails_every_typed_callback() {
    let mut prev = Conf { enable: Flag::On, key: "k".into() };
    let mut conf = Conf::default();
    assert_eq!(<Plain as RawHttpModule>::preconfiguration(0), NGX_ERROR);
    assert_eq!(<Plain as RawHttpModule>::postconfiguration(0), NGX_ERROR);
    assert_eq!(<Plain as RawHttpModule>::create_main_conf(0), None);
    assert_eq!(<Plain as RawHttpModule>::create_srv_conf(0), None);
    assert_eq!(<Plain as RawHttpModule>::create_loc_conf(0), None);
    assert_eq!(<Plain as RawHttpModule>::init_main_conf(0, Some(&mut ())), NGX_CONF_ERROR);
    assert_eq!(<Plain as RawHttpModule>::merge_srv_conf(0, Some(&mut prev), Some(&mut conf)), NGX_CONF_ERROR);
    assert_eq!(<Plain as RawHttpModule>::merge_loc_conf(0, Some(&mut prev), Some(&mut conf)), NGX_CONF_ERROR);
    assert_eq!(conf, Conf::default());
}

#[test]
fn a_null_value_fails_the_typed_callback() {
    let mut one = Conf { enable: Flag::On, key: "k".into() };
    assert_eq!(<Plain as RawHttpModule>::init_main_conf(CF, None), NGX_CONF_ERROR);
    assert_eq!(<Plain as RawHttpModule>::merge_srv_conf(CF, None, Some(&mut one)), NGX_CONF_ERROR);
    assert_eq!(<Plain as RawHttpModule>::merge_srv_conf(CF, Some(&mut one), None), NGX_CONF_ERROR);
    assert_eq!(<Plain as RawHttpModule>::merge_loc_conf(CF, None, Some(&mut one)), NGX_CONF_ERROR);
    assert_eq!(<Plain as RawHttpModule>::merge_loc_conf(CF, Some(&mut one), None), NGX_CONF_ERROR);
    assert_eq!(<Plain as RawHttpModule>::merge_loc_conf(CF, None, None), NGX_CONF_ERROR);
    assert_eq!(one, Conf { enable: Flag::On, key: "k".into() });
}

#[test]
fn a_typed_merge_goes_from_the_outer_value_into_the_inner() {
    let mut prev = Conf { enable: Flag::On, key: "outer".into() };
    let mut conf = Conf::default();
    assert_eq!(<Plain as RawHttpModule>::merge_srv_conf(CF, Some(&mut prev), Some(&mut conf)), NGX_CONF_OK);
    assert_eq!(conf, Conf { enable: Flag::On, key: "outer".into() });
    assert_eq!(prev, Conf { enable: Flag::On, key: "outer".into() });

    let mut inner = Conf { enable: Flag::Off, key: "inner".into() };
    assert_eq!(<Plain as RawHttpModule>::merge_loc_conf(CF, Some(&mut conf), Some(&mut inner)), NGX_CONF_OK);
    assert_eq!(inner, Conf { enable: Flag::Off, key: "inner".into() });

    let mut prev = Conf { enable: Flag::On, key: String::new() };
    let mut conf = Conf::default();
    assert_eq!(<Plain as RawHttpModule>::merge_loc_conf(CF, Some(&mut prev), Some(&mut conf)), NGX_CONF_ERROR);
}

#[test]
fn a_failing_module_fails_each_callback() {
    assert_eq!(<Failing as RawHttpModule>::preconfiguration(CF), NGX_ERROR);
    assert_eq!(<Failing as RawHttpModule>::postconfiguration(CF), NGX_ERROR);
    assert_eq!(<Failing as RawHttpModule>::create_main_conf(CF), None);
    let mut conf = Conf::default();
    assert_eq!(<Failing as RawHttpModule>::init_main_conf(CF, Some(&mut conf)), NGX_CONF_ERROR);
    assert_eq!(conf.key, "seen");
}

#[test]
fn a_record_must_not_be_null_and_must_be_aligned() {
    assert!(check_record_address(CF));
    assert!(check_record_address(WORD));
    assert!(!check_record_address(0));
    assert!(!check_record_address(CF + 1));
    assert!(!check_record_address(CF + WORD - 1));

    let cf = NgxConf::new(CF, MODULE).unwrap();
    assert_eq!(cf.as_ptr().get(), CF);
    assert_eq!(cf.module_ptr().get(), MODULE);
    assert!(NgxConf::new(0, MODULE).is_none());
    assert!(NgxConf::new(CF, 0).is_none());
    assert!(NgxConf::new(CF + 1, MODULE).is_none());
    assert!(NgxConf::new(CF, MODULE + 1).is_none());
    assert!(NgxConf::new(0, 0).is_none());
}

#[test]
fn a_safe_module_answers_with_its_defaults() {
    assert_eq!(preconfiguration::<Safe>(CF), NGX_OK);
    assert_eq!(postconfiguration::<Safe>(CF), NGX_OK);
    assert_eq!(create_main_conf::<Safe>(CF), Some(Conf::default()));
    assert_eq!(create_srv_conf::<Safe>(CF), Some(Conf::default()));
    assert_eq!(create_loc_conf::<Safe>(CF), Some(Conf::default()));
    let mut conf = Conf::default();
    assert_eq!(init_main_conf::<Safe>(CF, Some(&mut conf)), NGX_CONF_OK);

    let mut prev = Conf { enable: Flag::On, key: "outer".into() };
    assert_eq!(merge_srv_conf::<Safe>(CF, Some(&mut prev), Some(&mut conf)), NGX_CONF_OK);
    assert_eq!(conf, Conf { enable: Flag::On, key: "outer".into() });
    let mut leaf = Conf::default();
    assert_eq!(merge_loc_conf::<Safe>(CF, Some(&mut conf), Some(&mut leaf)), NGX_CONF_OK);
    assert_eq!(leaf, Conf { enable: Flag::On, key: "outer".into() });
    assert_eq!(conf, Conf { enable: Flag::On, key: "outer".into() });
}

#[test]
fn a_safe_merge_that_misses_a_value_is_an_error() {
    let mut prev = Conf { enable: Flag::On, key: String::new() };
    let mut conf = Conf::default();
    assert_eq!(merge_srv_conf::<Safe>(CF, Some(&mut prev), Some(&mut conf)), NGX_CONF_ERROR);
    let mut conf = Conf::default();
    assert_eq!(merge_loc_conf::<Safe>(CF, Some(&mut prev), Some(&mut conf)), NGX_CONF_ERROR);
}

#[test]
fn a_bad_context_fails_every_safe_callback() {
    for cf in [0, CF + 1, CF + WORD / 2] {
        let mut prev = Conf { enable: Flag::On, key: "k".into() };
        let mut conf = Conf::default();
        assert_eq!(preconfiguration::<Safe>(cf), NGX_ERROR);
        assert_eq!(postconfiguration::<Safe>(cf), NGX_ERROR);
        assert_eq!(create_main_conf::<Safe>(cf), None);
        assert_eq!(create_srv_conf::<Safe>(cf), None);
        assert_eq!(create_loc_conf::<Safe>(cf), None);
        assert_eq!(init_main_conf::<Safe>(cf, Some(&mut conf)), NGX_CONF_ERROR);
        assert_eq!(merge_srv_conf::<Safe>(cf, Some(&mut prev), Some(&mut conf)), NGX_CONF_ERROR);
        assert_eq!(merge_loc_conf::<Safe>(cf, Some(&mut prev), Some(&mut conf)), NGX_CONF_ERROR);
        assert_eq!(conf, Conf::default());
    }
}

#[test]
fn a_module_without_a_record_fails_every_safe_callback() {
    let mut prev = Conf::default();
    let mut conf = Conf::default();
    assert_eq!(preconfiguration::<Nowhere>(CF), NGX_ERROR);
    assert_eq!(postconfiguration::<Nowhere>(CF), NGX_ERROR);
    assert_eq!(create_main_conf::<Nowhere>(CF), None);
    assert_eq!(init_main_conf::<Nowhere>(CF, Some(&mut conf)), NGX_CONF_ERROR);
    assert_eq!(merge_srv_conf::<Nowhere>(CF, Some(&mut prev), Some(&mut conf)), NGX_CONF_ERROR);
    assert_eq!(merge_loc_conf::<Nowhere>(CF, Some(&mut prev), Some(&mut conf)), NGX_CONF_ERROR);
}

#[test]
fn a_null_value_fails_the_safe_callback() {
    let mut one = Conf::default();
    assert_eq!(init_main_conf::<Safe>(CF, None), NGX_CONF_ERROR);
    assert_eq!(merge_srv_conf::<Safe>(CF, None, Some(&mut one)), NGX_CONF_ERROR);
    assert_eq!(merge_srv_conf::<Safe>(CF, Some(&mut one), None), NGX_CONF_ERROR);
    assert_eq!(merge_loc_conf::<Safe>(CF, None, Some(&mut one)), NGX_CONF_ERROR);
    assert_eq!(merge_loc_conf::<Safe>(CF, Some(&mut one), None), NGX_CONF_ERROR);
}

#[test]
fn what_a_safe_module_returns_is_handed_on() {
    assert_eq!(preconfiguration::<Declining>(CF), NGX_DECLINED);
    assert_eq!(postconfiguration::<Declining>(CF), NGX_AGAIN);
    assert_eq!(create_main_conf::<Declining>(CF), None);
    assert_eq!(init_main_conf::<Declining>(CF, Some(&mut Conf::default())), NGX_CONF_ERROR);
    assert_ne!(preconfiguration::<Declining>(CF), NGX_BUSY);
    assert_ne!(preconfiguration::<Declining>(CF), NGX_ABORT);
}

fn lists() -> Vec<Array<u32>> {
    (0..NGX_HTTP_PHASES).map(|n| Array::new(Addr::new(0x8000 + 0x40 * n).unwrap(), Vec::new())).collect()
}

#[test]
fn the_core_value_needs_an_address_and_a_list_for_each_phase() {
    assert!(NgxMainConf::new(0x9000, lists()).is_some());
    assert!(NgxMainConf::new(0, lists()).is_none());
    let mut short = lists();
    short.pop();
    assert!(NgxMainConf::new(0x9000, short).is_none());
    assert!(NgxMainConf::<u32>::new(0x9000, Vec::new()).is_none());
}

#[test]
fn handlers_run_in_the_order_they_were_registered() {
    let mut conf = NgxMainConf::new(0x9000, lists()).unwrap();
    assert_eq!(conf.add_phase_handler(Phase::Access, 1, 0xa000), Ok(()));
    assert_eq!(conf.add_phase_handler(Phase::PreContent, 2, 0xa008), Ok(()));
    assert_eq!(conf.add_phase_handler(Phase::Access, 3, 0xa010), Ok(()));
    assert_eq!(conf.add_phase_handler(Phase::Access, 4, 0), Err(()));
    assert_eq!(conf.add_phase_handler(Phase::Access, 5, 0xa018), Ok(()));
    assert_eq!(conf.handlers(Phase::Access), &[1, 3, 5]);
    assert_eq!(conf.handlers(Phase::PreContent), &[2]);
    for phase in [
        Phase::PostRead,
        Phase::ServerRewrite,
        Phase::FindConfig,
        Phase::Rewrite,
        Phase::PostRewrite,
        Phase::PreAccess,
        Phase::PostAccess,
        Phase::Content,
        Phase::Log,
    ] {
        assert!(conf.handlers(phase).is_empty());
    }
}

#[test]
fn the_accessor_finds_the_core_value_by_the_module_index() {
    let mut cf = NgxConf::new(CF, MODULE).unwrap();
    let table = [0x100, 0x200, 0x300];
    let mut conf = cf.main_conf(&table, 1, lists());
    assert_eq!(conf.add_phase_handler(Phase::Log, 9u32, 0xa000), Ok(()));
    assert_eq!(conf.handlers(Phase::Log), &[9]);
}

#[test]
fn the_accessor_begins_an_allocation_in_the_pool_of_the_pass() {
    let cf = NgxConf::new(CF, MODULE).unwrap();
    let (state, request) = cf.allocate(0x1000, 5u32);
    let pool = Addr::new(0x1000).unwrap();
    assert_eq!(state, Allocation::AwaitBlock { pool, value: 5u32 });
    assert_eq!(request, Some(PoolRequest::Alloc { pool, size: 4 }));
    let (state, request) = cf.allocate(0x1000, ());
    assert!(state.is_done());
    assert_eq!(request, None);
}

#[test]
fn the_typed_defaults_succeed_make_the_default_and_merge_by_the_values_rule() {
    let cf = Addr::new(CF).unwrap();
    assert_eq!(<Plain as HttpModule>::preconfiguration(cf), Ok(()));
    assert_eq!(<Plain as HttpModule>::postconfiguration(cf), Ok(()));
    assert_eq!(<Plain as HttpModule>::create_main_conf(cf), Ok(()));
    assert_eq!(<Plain as HttpModule>::create_srv_conf(cf), Ok(Conf::default()));
    assert_eq!(<Plain as HttpModule>::create_loc_conf(cf), Ok(Conf::default()));
    assert_eq!(<Plain as HttpModule>::init_main_conf(cf, &mut ()), Ok(()));

    let mut prev = Conf { enable: Flag::On, key: "outer".into() };
    let mut conf = Conf::default();
    assert_eq!(<Plain as HttpModule>::merge_srv_conf(cf, &mut prev, &mut conf), Ok(()));
    assert_eq!(conf, Conf { enable: Flag::On, key: "outer".into() });
    assert_eq!(prev, Conf { enable: Flag::On, key: "outer".into() });

    let mut prev = Conf { enable: Flag::On, key: String::new() };
    let mut conf = Conf::default();
    assert_eq!(<Plain as HttpModule>::merge_loc_conf(cf, &mut prev, &mut conf), Err(()));
    assert_eq!(prev, Conf { enable: Flag::On, key: String::new() });
}

#[test]
fn the_safe_defaults_succeed_make_the_default_and_merge_by_the_values_rule() {
    let pass = || NgxConf::new(CF, MODULE).unwrap();
    assert_eq!(Safe::preconfiguration(pass()), Ok(()));
    assert_eq!(Safe::postconfiguration(pass()), Ok(()));
    assert_eq!(Safe::create_main_conf(pass()), Some(Conf::default()));
    assert_eq!(Safe::create_srv_conf(pass()), Some(Conf::default()));
    assert_eq!(Safe::create_loc_conf(pass()), Some(Conf::default()));
    let mut value = Conf { enable: Flag::Off, key: "k".into() };
    assert_eq!(Safe::init_main_conf(pass(), &mut value), Ok(()));
    assert_eq!(value, Conf { enable: Flag::Off, key: "k".into() });

    let mut prev = Conf { enable: Flag::On, key: "outer".into() };
    let mut conf = Conf::default();
    assert_eq!(Safe::merge_srv_conf(pass(), &mut prev, &mut conf), Ok(()));
    assert_eq!(conf, Conf { enable: Flag::On, key: "outer".into() });
    assert_eq!(prev, Conf { enable: Flag::On, key: "outer".into() });

    let mut prev = Conf { enable: Flag::On, key: String::new() };
    let mut conf = Conf { enable: Flag::Off, key: "inner".into() };
    assert_eq!(Safe::merge_loc_conf(pass(), &mut prev, &mut conf), Ok(()));
    assert_eq!(conf, Conf { enable: Flag::Off, key: "inner".into() });

    let mut conf = Conf::default();
    assert_eq!(Safe::merge_loc_conf(pass(), &mut prev, &mut conf), Err(MergeConfigError::NoValue));
}
