use forge_lib::build_system::BuildSystems;
use forge_lib::language::{CStandard, CppStandard, Language};
use forge_lib::package_manager::PackageManagers;
use forge_lib::test_framework::{Boost, CMocka, GTest, TestFramework, TestFrameworks, Unit};
use forge_lib::Error;

#[test]
fn test_build_system_from_str() {
    let s = "CMake";
    let v = BuildSystems::from_str(s).unwrap();
    assert_eq!(v, BuildSystems::CMake);

    let s = "Meson";
    let v = BuildSystems::from_str(s).unwrap();
    assert_eq!(v, BuildSystems::Meson);

    let s = "Make";
    let v = BuildSystems::from_str(s).unwrap();
    assert_eq!(v, BuildSystems::Make);
}

#[test]
fn test_pkg_manager_from_str() {
    let s = "Vcpkg";
    let v = PackageManagers::from_str(s).unwrap();
    assert_eq!(v, PackageManagers::Vcpkg);

    let s = "Conan";
    let v = PackageManagers::from_str(s).unwrap();
    assert_eq!(v, PackageManagers::Conan);
}

#[test]
fn test_test_framework_from_str() {
    let s = "GTest";
    let v = TestFrameworks::from_str(s).unwrap();
    assert_eq!(v, TestFrameworks::GTest);

    let s = "CMocka";
    let v = TestFrameworks::from_str(s).unwrap();
    assert_eq!(v, TestFrameworks::CMocka);

    let s = "Boost";
    let v = TestFrameworks::from_str(s).unwrap();
    assert_eq!(v, TestFrameworks::Boost);

    let s = "Unit";
    let v = TestFrameworks::from_str(s).unwrap();
    assert_eq!(v, TestFrameworks::Unit);
}

#[test]
fn unknown_names_are_refused() {
    let refused = Error::ParseError("Matching variant not found".to_string());
    assert_eq!(BuildSystems::from_str("cmake"), Err(refused.clone()));
    assert_eq!(BuildSystems::from_str(""), Err(refused.clone()));
    assert_eq!(PackageManagers::from_str("conan"), Err(refused.clone()));
    assert_eq!(TestFrameworks::from_str("gtest"), Err(refused.clone()));
    assert_eq!(TestFrameworks::from_str(""), Err(refused.clone()));
    assert_eq!(TestFrameworks::from_str("Catch2"), Err(refused.clone()));
    assert_eq!(CStandard::from_str("C17"), Err(refused.clone()));
    assert_eq!(CStandard::from_str("Cpp11"), Err(refused.clone()));
    assert_eq!(CppStandard::from_str("Cpp98"), Err(refused.clone()));
    assert_eq!(CppStandard::from_str("C11"), Err(refused.clone()));
    assert_eq!(Language::from_str("Rust"), Err(refused.clone()));
    assert_eq!(Language::from_str("c89"), Err(refused.clone()));
    assert_eq!(refused.detail(), strum::ParseError::VariantNotFound.to_string());
}

#[test]
fn strict_reading_refuses_unknown_names() {
    assert_eq!(BuildSystems::parse("Make"), Some(BuildSystems::Make));
    assert_eq!(BuildSystems::parse("make"), None);
    assert_eq!(PackageManagers::parse("Conan"), Some(PackageManagers::Conan));
    assert_eq!(PackageManagers::parse("Conan "), None);
    assert_eq!(TestFrameworks::parse("Unit"), Some(TestFrameworks::Unit));
    assert_eq!(TestFrameworks::parse("unit"), None);
    assert_eq!(CStandard::parse("C11"), Some(CStandard::C11));
    assert_eq!(CStandard::parse("Cpp11"), None);
    assert_eq!(CppStandard::parse("Cpp23"), Some(CppStandard::Cpp23));
    assert_eq!(CppStandard::parse("C11"), None);
}

#[test]
fn every_choice_is_found_under_its_own_name() {
    for name in BuildSystems::variants() {
        assert_eq!(BuildSystems::from_str(name).map(|v| v.as_str()), Ok(name));
        assert_eq!(BuildSystems::parse(name).map(|v| v.as_str()), Some(name));
    }
    for name in PackageManagers::variants() {
        assert_eq!(PackageManagers::from_str(name).map(|v| v.as_str()), Ok(name));
    }
    for name in TestFrameworks::variants() {
        let framework = TestFramework::new(TestFrameworks::from_str(name).unwrap(), String::new());
        assert_eq!(framework.as_str(), name);
    }
    for name in CStandard::variants() {
        assert_eq!(CStandard::from_str(name).map(|v| v.as_str()), Ok(name));
        assert_eq!(Language::from_str(name), CStandard::from_str(name).map(Language::C));
    }
    for name in CppStandard::variants() {
        assert_eq!(CppStandard::from_str(name).map(|v| v.as_str()), Ok(name));
        assert_eq!(Language::from_str(name), CppStandard::from_str(name).map(Language::Cpp));
    }
}

#[test]
fn variants_are_listed_in_order() {
    assert_eq!(BuildSystems::variants(), vec!["CMake", "Meson", "Make"]);
    assert_eq!(PackageManagers::variants(), vec!["Vcpkg", "Conan"]);
    assert_eq!(TestFrameworks::variants(), vec!["GTest", "CMocka", "Boost", "Unit"]);
    assert_eq!(CStandard::variants(), vec!["C89", "C99", "C11"]);
    assert_eq!(CppStandard::variants(), vec!["Cpp11", "Cpp14", "Cpp17", "Cpp20", "Cpp23"]);
    assert_eq!(
        Language::variants(),
        vec!["C89", "C99", "C11", "Cpp11", "Cpp14", "Cpp17", "Cpp20", "Cpp23"]
    );
}

#[test]
fn language_tables() {
    let c = Language::C(CStandard::C99);
    assert_eq!(c.version(), "99");
    assert_eq!(c.src_suffix(), "c");
    assert_eq!(c.header_suffix(), "h");
    assert_eq!(c.cmake_identifier(), "C");

    let cpp = Language::Cpp(CppStandard::Cpp17);
    assert_eq!(cpp.version(), "17");
    assert_eq!(cpp.src_suffix(), "cpp");
    assert_eq!(cpp.header_suffix(), "hpp");
    assert_eq!(cpp.cmake_identifier(), "CXX");

    assert_eq!(CStandard::C89.version(), "89");
    assert_eq!(CStandard::C11.version(), "11");
    assert_eq!(CppStandard::Cpp11.version(), "11");
    assert_eq!(CppStandard::Cpp14.version(), "14");
    assert_eq!(CppStandard::Cpp20.version(), "20");
    assert_eq!(CppStandard::Cpp23.version(), "23");
}

#[test]
fn link_targets_of_the_frameworks() {
    let dir = String::from("/tmp/dummy");
    let target = |v| TestFramework::new(v, dir.clone()).cmake_target();
    assert_eq!(target(TestFrameworks::GTest), "GTest::gtest GTest::gtest_main");
    assert_eq!(target(TestFrameworks::CMocka), "cmocka::cmocka");
    assert_eq!(target(TestFrameworks::Boost), "Boost::unit_test_framework\n");
    assert_eq!(target(TestFrameworks::Unit), "Unit");
    assert_eq!(GTest::cmake_target(), "GTest::gtest GTest::gtest_main");
    assert_eq!(CMocka::cmake_target(), "cmocka::cmocka");
    assert_eq!(Boost::cmake_target(), "Boost::unit_test_framework\n");
    assert_eq!(Unit::cmake_target(), "Unit");
}
