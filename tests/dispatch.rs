use loggery::{
    get_extension, get_logger, log, set_extension, set_logger, set_min_level, Delivery, Filter,
    Level, Linked, Metadata, Payload, Registry,
};

type Plan = Vec<Delivery<&'static str, &'static str>>;

fn payload(level: Level, text: &str) -> Payload {
    Payload {
        level,
        args: String::from(text),
        meta: Metadata { module: "app::db", file: "src/db.rs", line: 7 },
    }
}

/// Carries a plan out: every receiver is recorded with what it was handed.
fn deliver(plan: &Plan, payload: &Payload) -> Vec<(String, Level, String)> {
    let mut seen = Vec::new();
    for step in plan.iter() {
        let name = match step {
            Delivery::Extension(name) => format!("ext:{}", name),
            Delivery::Sink(name) => format!("sink:{}", name),
        };
        seen.push((name, payload.level, payload.args.clone()));
    }
    seen
}

#[test]
fn default_is_installed_once_and_kept() {
    let mut registry: Registry<&'static str, &'static str> = Registry::new(Some("console"));
    assert_eq!(get_logger(&mut registry), Some("console"));
    assert_eq!(get_logger(&mut registry), Some("console"));
    assert_eq!(get_logger(&mut registry), Some("console"));
}

#[test]
fn register_overrides_installed_default() {
    let mut registry: Registry<&'static str, &'static str> = Registry::new(Some("console"));
    assert_eq!(get_logger(&mut registry), Some("console"));
    set_logger(&mut registry, "file");
    assert_eq!(get_logger(&mut registry), Some("file"));
}

#[test]
fn no_default_and_no_register_gives_no_sink() {
    let mut registry: Registry<&'static str, &'static str> = Registry::new(None);
    assert_eq!(get_logger(&mut registry), None);
    assert_eq!(get_extension(&registry), None);
}

#[test]
fn last_registration_wins() {
    let filter = Filter::new(Some(Level::Trace));
    let mut registry: Registry<&'static str, &'static str> = Registry::new(Some("console"));
    set_logger(&mut registry, "a");
    set_logger(&mut registry, "b");
    for _ in 0..3 {
        let plan = log(&filter, &mut registry, &payload(Level::Info, "tick"));
        assert_eq!(plan, vec![Delivery::Sink("b")]);
    }
}

#[test]
fn last_extension_wins() {
    let mut registry: Registry<&'static str, &'static str> = Registry::new(None);
    set_extension(&mut registry, "x");
    set_extension(&mut registry, "y");
    assert_eq!(get_extension(&registry), Some("y"));
}

#[test]
fn no_sink_dispatch_is_silent() {
    let filter = Filter::new(Some(Level::Trace));
    let mut registry: Registry<&'static str, &'static str> = Registry::new(None);
    for level in [Level::Trace, Level::Info, Level::Error] {
        let record = payload(level, "nobody listens");
        let plan = log(&filter, &mut registry, &record);
        assert!(plan.is_empty());
        assert!(deliver(&plan, &record).is_empty());
    }
    assert_eq!(get_logger(&mut registry), None);
}

#[test]
fn info_floor_drops_debug_and_passes_warn() {
    let filter = Filter::new(Some(Level::Info));
    let mut registry: Registry<&'static str, &'static str> = Registry::new(None);
    set_logger(&mut registry, "mine");

    let debug = payload(Level::Debug, "hidden");
    assert!(log(&filter, &mut registry, &debug).is_empty());

    let warn = payload(Level::Warn, "disk at 91%");
    let plan = log(&filter, &mut registry, &warn);
    assert_eq!(
        deliver(&plan, &warn),
        vec![(String::from("sink:mine"), Level::Warn, String::from("disk at 91%"))]
    );
}

#[test]
fn runtime_warn_floor_drops_info_and_passes_error() {
    let mut filter = Filter::new(Some(Level::Trace));
    set_min_level(&mut filter, Level::Warn);
    let mut registry: Registry<&'static str, &'static str> = Registry::new(None);
    set_logger(&mut registry, "mine");

    assert!(log(&filter, &mut registry, &payload(Level::Info, "quiet")).is_empty());
    let error = payload(Level::Error, "failed");
    let plan = log(&filter, &mut registry, &error);
    assert_eq!(
        deliver(&plan, &error),
        vec![(String::from("sink:mine"), Level::Error, String::from("failed"))]
    );
}

#[test]
fn extension_runs_once_before_sink() {
    let filter = Filter::new(Some(Level::Trace));
    let mut registry: Registry<&'static str, &'static str> = Registry::new(None);
    set_logger(&mut registry, "mine");
    set_extension(&mut registry, "audit");

    let record = payload(Level::Info, "user 3 logged in");
    let plan = log(&filter, &mut registry, &record);
    assert_eq!(plan, vec![Delivery::Extension("audit"), Delivery::Sink("mine")]);
    let seen = deliver(&plan, &record);
    assert_eq!(seen.len(), 2);
    assert_eq!(seen[0].0, "ext:audit");
    assert_eq!(seen[1].0, "sink:mine");
    assert_eq!((seen[0].1, &seen[0].2), (seen[1].1, &seen[1].2));
}

#[test]
fn extension_alone_still_runs_without_sink() {
    let filter = Filter::new(Some(Level::Trace));
    let mut registry: Registry<&'static str, &'static str> = Registry::new(None);
    set_extension(&mut registry, "audit");
    let plan = log(&filter, &mut registry, &payload(Level::Warn, "w"));
    assert_eq!(plan, vec![Delivery::Extension("audit")]);
}

#[test]
fn filtered_out_record_does_not_install_default() {
    let filter = Filter::new(Some(Level::Error));
    let mut registry: Registry<&'static str, &'static str> = Registry::new(Some("console"));
    assert!(log(&filter, &mut registry, &payload(Level::Info, "skip")).is_empty());
    set_logger(&mut registry, "late");
    let plan = log(&filter, &mut registry, &payload(Level::Error, "e"));
    assert_eq!(plan, vec![Delivery::Sink("late")]);
}

#[test]
fn dispatch_falls_back_to_default_sink() {
    let filter = Filter::new(Some(Level::Trace));
    let mut registry: Registry<&'static str, &'static str> = Registry::new(Some("console"));
    let plan = log(&filter, &mut registry, &payload(Level::Debug, "d"));
    assert_eq!(plan, vec![Delivery::Sink("console")]);
    assert_eq!(get_logger(&mut registry), Some("console"));
}

#[test]
fn off_filter_dispatches_nothing() {
    let filter = Filter::new(None);
    let mut registry: Registry<&'static str, &'static str> = Registry::new(Some("console"));
    set_extension(&mut registry, "audit");
    assert!(log(&filter, &mut registry, &payload(Level::Error, "e")).is_empty());
}

#[test]
fn linked_dispatch_uses_bound_receivers() {
    let mut filter = Filter::new(Some(Level::Debug));
    let plain: Linked<&'static str, &'static str> = Linked::new("static", None);
    let with_ext: Linked<&'static str, &'static str> = Linked::new("static", Some("hook"));

    assert!(plain.log(&filter, &payload(Level::Trace, "t")).is_empty());
    assert_eq!(plain.log(&filter, &payload(Level::Debug, "d")), vec![Delivery::Sink("static")]);
    assert_eq!(
        with_ext.log(&filter, &payload(Level::Info, "i")),
        vec![Delivery::Extension("hook"), Delivery::Sink("static")]
    );
    set_min_level(&mut filter, Level::Error);
    assert!(with_ext.log(&filter, &payload(Level::Warn, "w")).is_empty());
}
