use company_email::generate_email_address;
use company_email::Employee;
use company_email::InputError;

#[test]
fn test_simple_case_english() {
    assert_eq!(
        generate_email_address("roger", "federer"),
        Ok("r.federer@mycompany.com".to_string())
    )
}

#[test]
fn test_last_name_contains_spaces() {
    assert_eq!(
        generate_email_address("roberto", "bautista agut"),
        Ok("r.bautista-agut@mycompany.com".to_string())
    )
}

#[test]
fn test_name_contains_uppercase_letters() {
    assert_eq!(
        generate_email_address("Gael", "Monfils"),
        Ok("g.monfils@mycompany.com".to_string())
    )
}

#[test]
fn test_empty_first_name_is_rejected() {
    assert_eq!(generate_email_address("", "federer"), Err(InputError));
}

#[test]
fn test_empty_last_name_gives_empty_slug() {
    assert_eq!(
        generate_email_address("roger", ""),
        Ok("r.@mycompany.com".to_string())
    );
}

#[test]
fn test_untrimmed_last_name_keeps_hyphens() {
    assert_eq!(
        generate_email_address("roger", " federer "),
        Ok("r.-federer-@mycompany.com".to_string())
    );
}

#[test]
fn test_identical_inputs_identical_output() {
    assert_eq!(
        generate_email_address("roberto", "bautista agut"),
        generate_email_address("roberto", "bautista agut")
    );
}

#[test]
fn test_case_invariance_concrete() {
    assert_eq!(
        generate_email_address("GAEL", "MONFILS"),
        generate_email_address("gael", "monfils")
    );
}

#[test]
fn test_slug_rule_idempotent_concrete() {
    assert_eq!(
        generate_email_address("roberto", "bautista-agut"),
        generate_email_address("roberto", "bautista agut")
    );
}

#[test]
fn test_punctuation_passes_through() {
    assert_eq!(
        generate_email_address("noah", "o'neill jr"),
        Ok("n.o'neill-jr@mycompany.com".to_string())
    );
}

#[test]
fn test_non_ascii_characters_pass_through() {
    assert_eq!(
        generate_email_address("édouard", "roger-vasselin"),
        Ok("é.roger-vasselin@mycompany.com".to_string())
    );
}

#[test]
fn test_email_generation() {
    let cases = vec![
        (
            Employee::new(String::from("roger"), String::from("federer")),
            String::from("r.federer@mycompany.com"),
        ),
        (
            Employee::new(String::from("roberto"), String::from("bautista agut")),
            String::from("r.bautista-agut@mycompany.com"),
        ),
        (
            Employee::new(String::from("Gael"), String::from("Monfils")),
            String::from("g.monfils@mycompany.com"),
        ),
    ];
    for (fake_employee, expected) in cases {
        assert_eq!(fake_employee.generate_email_address(), Ok(expected))
    }
}

#[test]
fn test_employee_empty_first_name_is_rejected() {
    let employee = Employee::new(String::new(), String::from("federer"));
    assert_eq!(employee.generate_email_address(), Err(InputError));
}
