use par_tui::logic::planner::{create_plan, UpdateMode, UpdatePlan};
use par_tui::models::config::Config;
use par_tui::models::package::{Package, PackageRepository};

fn make_test_package(name: &str, repo: PackageRepository) -> Package {
    Package {
        name: name.to_string(),
        current_version: Some("1.0.0".to_string()),
        new_version: "2.0.0".to_string(),
        repository: repo,
    }
}

#[test]
fn test_build_command_entire_system() {
    let packages = vec![make_test_package("pkg1", PackageRepository::Official)];
    let plan = create_plan(UpdateMode::EntireSystem, packages, vec![]);

    let config = Config::default();
    let cmd = plan.build_command(&config);

    assert_eq!(cmd[0], "paru");
    assert_eq!(cmd[1], "-Syu");
}

#[test]
fn test_build_command_official_only() {
    let packages = vec![make_test_package("pkg1", PackageRepository::Official)];
    let plan = create_plan(UpdateMode::OfficialOnly, packages, vec![]);

    let config = Config::default();
    let cmd = plan.build_command(&config);

    assert_eq!(cmd[0], "sudo");
    assert_eq!(cmd[1], "pacman");
    assert_eq!(cmd[2], "-Syu");
}

#[test]
fn test_build_command_with_ignore() {
    let packages = vec![make_test_package("pkg1", PackageRepository::Official)];
    let ignored = vec!["pkg2".to_string(), "pkg3".to_string()];
    let plan = create_plan(UpdateMode::EntireSystem, packages, ignored);

    let config = Config::default();
    let cmd = plan.build_command(&config);

    assert!(cmd.contains(&"--ignore".to_string()));
    assert!(cmd.contains(&"pkg2,pkg3".to_string()));
}

#[test]
fn test_build_command_with_extra_args() {
    let packages = vec![make_test_package("pkg1", PackageRepository::Official)];
    let plan = create_plan(UpdateMode::EntireSystem, packages, vec![]);

    let mut config = Config::default();
    config.behavior.extra_args = vec!["--noconfirm".to_string()];
    let cmd = plan.build_command(&config);

    assert!(cmd.contains(&"--noconfirm".to_string()));
}

#[test]
fn plan_holds_the_ignored_names_sorted_and_once() {
    let plan = create_plan(
        UpdateMode::EntireSystem,
        Vec::new(),
        vec!["zlib".to_string(), "bash".to_string(), "zlib".to_string(), "glibc".to_string()],
    );

    assert_eq!(plan.ignore_list, vec!["bash", "glibc", "zlib"]);
    assert_eq!(
        plan.build_command(&Config::default()),
        vec!["paru", "-Syu", "--ignore", "bash,glibc,zlib"]
    );
}

#[test]
fn official_only_plan_leaves_aur_packages_out() {
    let packages = vec![
        make_test_package("a", PackageRepository::Aur),
        make_test_package("b", PackageRepository::Official),
        make_test_package("c", PackageRepository::Aur),
        make_test_package("d", PackageRepository::Official),
    ];

    let official = create_plan(UpdateMode::OfficialOnly, packages.clone(), vec![]);
    let entire = create_plan(UpdateMode::EntireSystem, packages.clone(), vec![]);

    assert_eq!(official.mode, UpdateMode::OfficialOnly);
    assert_eq!(official.packages, vec![packages[1].clone(), packages[3].clone()]);
    assert_eq!(entire.mode, UpdateMode::EntireSystem);
    assert_eq!(entire.packages, packages);
}

#[test]
fn command_puts_exclusions_before_the_extra_arguments() {
    let plan = UpdatePlan {
        mode: UpdateMode::OfficialOnly,
        packages: Vec::new(),
        ignore_list: vec!["linux".to_string()],
    };
    let mut config = Config::default();
    config.behavior.extra_args = vec!["--needed".to_string(), "--noconfirm".to_string()];

    assert_eq!(
        plan.build_command(&config),
        vec!["sudo", "pacman", "-Syu", "--ignore", "linux", "--needed", "--noconfirm"]
    );
}

#[test]
fn default_settings_exclude_nothing_and_warn() {
    let config = Config::default();

    assert!(config.exclude.permanent.is_empty());
    assert!(config.behavior.extra_args.is_empty());
    assert!(config.behavior.warn_stale_system);

    let mut changed = config.clone();
    changed.exclude.permanent.push("linux".to_string());
    assert!(config.exclude.permanent.is_empty());
    assert_eq!(changed.clone().exclude.permanent, vec!["linux"]);
}
