use pyo3_testing::directive::ImportDirective;
use pyo3_testing::extract::{Annotation, TestDecl};
use pyo3_testing::generate::{impl_pyo3test, wrap_testcase, FunctionSetup, ModuleSetup};
use pyo3_testing::render::{function_error_message, module_error_message, render_expanded};
use pyo3_testing::tokens::Token;

fn ident(name: &str) -> Token {
    Token::Ident(name.to_string())
}

fn from_import(binding: &str, module: &str, function: &str) -> Annotation {
    Annotation {
        tag: "pyo3import".to_string(),
        payload: vec![
            ident(binding),
            Token::Colon,
            ident("from"),
            ident(module),
            ident("import"),
            ident(function),
        ],
    }
}

fn module_import(binding: &str, module: &str) -> Annotation {
    Annotation {
        tag: "pyo3import".to_string(),
        payload: vec![ident(binding), Token::Colon, ident("import"), ident(module)],
    }
}

#[test]
fn test_other_attribute() {
    let decl = TestDecl {
        annotations: vec![
            from_import("py_fizzbuzzo3", "fizzbuzzo3", "fizzbuzz"),
            Annotation { tag: "anotherattribute".to_string(), payload: vec![] },
            from_import("foo_o3", "pyfoo", "pybar"),
        ],
        signature: "fn test_fizzbuzz()".to_string(),
        body: vec!["assert!(true)".to_string()],
    };

    let mut expected = String::new();
    expected.push_str("#[test]\n");
    expected.push_str("#[anotherattribute]\n");
    expected.push_str("fn test_fizzbuzz() {\n");
    expected.push_str("    pyo3::prepare_freethreaded_python();\n");
    expected.push_str("    Python::with_gil(|py| {\n");
    expected.push_str("        let sys = PyModule::import_bound(py, \"sys\").unwrap();\n");
    expected.push_str(
        "        let sys_modules: Bound<'_, PyDict> = sys.getattr(\"modules\").unwrap().downcast_into().unwrap();\n",
    );
    expected.push_str(
        "        let py_fizzbuzzo3_pymodule = unsafe { Bound::from_owned_ptr(py, py_fizzbuzzo3::__pyo3_init()) };\n",
    );
    expected.push_str(
        "        sys_modules.set_item(\"fizzbuzzo3\", py_fizzbuzzo3_pymodule).expect(\"Failed to import fizzbuzzo3\");\n",
    );
    expected.push_str(
        "        let fizzbuzzo3 = sys_modules.get_item(\"fizzbuzzo3\").unwrap().unwrap();\n",
    );
    expected.push_str(
        "        let foo_o3_pymodule = unsafe { Bound::from_owned_ptr(py, foo_o3::__pyo3_init()) };\n",
    );
    expected.push_str(
        "        sys_modules.set_item(\"pyfoo\", foo_o3_pymodule).expect(\"Failed to import pyfoo\");\n",
    );
    expected.push_str("        let pyfoo = sys_modules.get_item(\"pyfoo\").unwrap().unwrap();\n");
    expected.push_str(
        "        let fizzbuzz = fizzbuzzo3.getattr(\"fizzbuzz\").expect(\"Failed to get fizzbuzz function\");\n",
    );
    expected.push_str("        macro_rules! fizzbuzz {\n");
    expected.push_str(
        "            ($($arg:tt),+) => { fizzbuzz.call1(($($arg,)+)).unwrap().extract().unwrap() };\n",
    );
    expected.push_str(
        "            (*$args:ident) => { fizzbuzz.call1($args).unwrap().extract().unwrap() };\n",
    );
    expected.push_str(
        "            () => { fizzbuzz.call0().unwrap().extract().unwrap() };\n",
    );
    expected.push_str("        }\n");
    expected.push_str(
        "        let pybar = pyfoo.getattr(\"pybar\").expect(\"Failed to get pybar function\");\n",
    );
    expected.push_str("        macro_rules! pybar {\n");
    expected.push_str(
        "            ($($arg:tt),+) => { pybar.call1(($($arg,)+)).unwrap().extract().unwrap() };\n",
    );
    expected.push_str(
        "            (*$args:ident) => { pybar.call1($args).unwrap().extract().unwrap() };\n",
    );
    expected.push_str("            () => { pybar.call0().unwrap().extract().unwrap() };\n");
    expected.push_str("        }\n");
    expected.push_str("        assert!(true)\n");
    expected.push_str("    });\n");
    expected.push_str("}\n");

    let output = impl_pyo3test(decl).unwrap();
    assert_eq!(output, expected);
}

#[test]
fn module_import_binds_module_by_name() {
    let decl = TestDecl {
        annotations: vec![module_import("py_adders", "adders")],
        signature: "fn test_import_module_only()".to_string(),
        body: vec![],
    };
    let output = impl_pyo3test(decl).unwrap();
    assert!(output.contains(
        "        let py_adders_pymodule = unsafe { Bound::from_owned_ptr(py, py_adders::__pyo3_init()) };\n"
    ));
    assert!(output.contains(
        "        sys_modules.set_item(\"adders\", py_adders_pymodule).expect(\"Failed to import adders\");\n"
    ));
    assert!(output.contains(
        "        let adders = sys_modules.get_item(\"adders\").unwrap().unwrap();\n"
    ));
    assert!(!output.contains("macro_rules!"));
}

#[test]
fn from_import_defines_shorthand() {
    let decl = TestDecl {
        annotations: vec![from_import("py_adders", "adders", "addone")],
        signature: "fn test_addone()".to_string(),
        body: vec!["let result: isize = addone!(1);".to_string(), "assert_eq!(result, 2);".to_string()],
    };
    let output = impl_pyo3test(decl).unwrap();
    assert!(output.contains(
        "        let addone = adders.getattr(\"addone\").expect(\"Failed to get addone function\");\n"
    ));
    assert!(output.contains(
        "            ($($arg:tt),+) => { addone.call1(($($arg,)+)).unwrap().extract().unwrap() };\n"
    ));
    assert!(output.contains("        let result: isize = addone!(1);\n"));
    assert!(output.contains("        assert_eq!(result, 2);\n"));
}

#[test]
fn zero_argument_shorthand_shape() {
    let decl = TestDecl {
        annotations: vec![from_import("py_zeros", "zeros", "zero")],
        signature: "fn test_zero()".to_string(),
        body: vec!["let result: isize = zero!();".to_string()],
    };
    let output = impl_pyo3test(decl).unwrap();
    assert!(output.contains("            () => { zero.call0().unwrap().extract().unwrap() };\n"));
}

#[test]
fn spread_shorthand_shape() {
    let decl = TestDecl {
        annotations: vec![from_import("py_adders", "adders", "add")],
        signature: "fn test_add()".to_string(),
        body: vec![
            "let args = (1, 2);".to_string(),
            "let result: isize = add!(*args);".to_string(),
        ],
    };
    let output = impl_pyo3test(decl).unwrap();
    assert!(output.contains(
        "            (*$args:ident) => { add.call1($args).unwrap().extract().unwrap() };\n"
    ));
}

#[test]
fn zero_directives_expand_to_setup_and_body() {
    let decl = TestDecl {
        annotations: vec![],
        signature: "fn test_plain()".to_string(),
        body: vec!["assert!(true)".to_string()],
    };
    let output = impl_pyo3test(decl).unwrap();
    let mut expected = String::new();
    expected.push_str("#[test]\n");
    expected.push_str("fn test_plain() {\n");
    expected.push_str("    pyo3::prepare_freethreaded_python();\n");
    expected.push_str("    Python::with_gil(|py| {\n");
    expected.push_str("        assert!(true)\n");
    expected.push_str("    });\n");
    expected.push_str("}\n");
    assert_eq!(output, expected);
}

#[test]
fn distinct_functions_on_one_module_get_independent_shorthands() {
    let decl = TestDecl {
        annotations: vec![
            from_import("py_adders", "adders", "addone"),
            from_import("py_adders", "adders", "addtwo"),
        ],
        signature: "fn test_two_functions()".to_string(),
        body: vec![],
    };
    let output = impl_pyo3test(decl).unwrap();
    let addone_at = output.find("macro_rules! addone {").unwrap();
    let addtwo_at = output.find("macro_rules! addtwo {").unwrap();
    assert!(addone_at < addtwo_at);
    let first_registration = output.find("sys_modules.set_item(\"adders\"").unwrap();
    let second_registration = output.rfind("sys_modules.set_item(\"adders\"").unwrap();
    assert!(first_registration < second_registration);
}

#[test]
fn reregistration_keeps_earlier_setup_in_order() {
    let decl = TestDecl {
        annotations: vec![
            module_import("py_first", "shared"),
            from_import("py_second", "shared", "helper"),
        ],
        signature: "fn test_shared_module()".to_string(),
        body: vec![],
    };
    let output = impl_pyo3test(decl).unwrap();
    let first = output
        .find("sys_modules.set_item(\"shared\", py_first_pymodule)")
        .unwrap();
    let second = output
        .find("sys_modules.set_item(\"shared\", py_second_pymodule)")
        .unwrap();
    assert!(first < second);
    assert!(output.contains(
        "        let helper = shared.getattr(\"helper\").expect(\"Failed to get helper function\");\n"
    ));
}

#[test]
fn expansion_is_deterministic() {
    let build = || TestDecl {
        annotations: vec![
            from_import("py_adders", "adders", "addone"),
            Annotation { tag: "allow".to_string(), payload: vec![ident("unused_macros")] },
        ],
        signature: "fn test_repeat()".to_string(),
        body: vec!["let result: isize = addone!(1);".to_string()],
    };
    let once = impl_pyo3test(build()).unwrap();
    let twice = impl_pyo3test(build()).unwrap();
    assert_eq!(once.as_bytes(), twice.as_bytes());
}

#[test]
fn passthrough_annotation_payload_is_kept() {
    let decl = TestDecl {
        annotations: vec![Annotation {
            tag: "allow".to_string(),
            payload: vec![ident("unused_macros")],
        }],
        signature: "fn test_allow()".to_string(),
        body: vec![],
    };
    let output = impl_pyo3test(decl).unwrap();
    assert!(output.starts_with("#[test]\n#[allow(unused_macros)]\n"));
}

#[test]
fn wrap_testcase_orders_passes() {
    let decl = TestDecl {
        annotations: vec![
            from_import("py_a", "alpha", "first"),
            module_import("py_b", "beta"),
        ],
        signature: "fn test_passes()".to_string(),
        body: vec!["assert!(true)".to_string()],
    };
    let case = pyo3_testing::extract::extract(decl).unwrap();
    let expanded = wrap_testcase(case);
    assert_eq!(
        expanded.modules,
        vec![
            ModuleSetup { binding: "py_a".to_string(), module_name: "alpha".to_string() },
            ModuleSetup { binding: "py_b".to_string(), module_name: "beta".to_string() },
        ]
    );
    assert_eq!(
        expanded.functions,
        vec![FunctionSetup {
            module_name: "alpha".to_string(),
            function_name: "first".to_string(),
        }]
    );
    assert_eq!(expanded.annotations[0].tag, "test");
    assert_eq!(expanded.body, vec!["assert!(true)".to_string()]);
    let rendered_once = render_expanded(&expanded);
    let rendered_again = render_expanded(&expanded);
    assert_eq!(rendered_once, rendered_again);
}

#[test]
fn error_messages_name_the_resource() {
    assert_eq!(module_error_message("adders"), "Failed to import adders");
    assert_eq!(
        function_error_message("addone"),
        "Failed to get addone function"
    );
}

#[test]
fn directive_values_round_trip_through_wrap() {
    let case = pyo3_testing::extract::TestCase {
        directives: vec![ImportDirective {
            binding: "py_m".to_string(),
            module: "m".to_string(),
            function: Some("f".to_string()),
        }],
        signature: "fn test_case()".to_string(),
        body: vec![],
        passthrough: vec![],
    };
    let expanded = wrap_testcase(case);
    assert_eq!(expanded.modules[0].binding, "py_m");
    assert_eq!(expanded.modules[0].module_name, "m");
    assert_eq!(expanded.functions[0].module_name, "m");
    assert_eq!(expanded.functions[0].function_name, "f");
}
