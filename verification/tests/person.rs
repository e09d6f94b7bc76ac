use anticounterfeit::person::PersonType;

#[test]
fn person_create_person() {
    let person = anticounterfeit::person::model::Person::new(
        PersonType::NaturalPerson,
        String::from("John"),
        String::from("Doe"),
    );

    assert!(matches!(person.person_type(), PersonType::NaturalPerson));
    assert_eq!(person.first_name(), "John");
    assert_eq!(person.last_name(), "Doe")
}

#[test]
fn person_models_create_person() {
    let person = anticounterfeit::person::models::Person::new(
        PersonType::NaturalPerson,
        String::from("John"),
        String::from("Doe"),
    );

    assert!(matches!(person.get_person_type(), PersonType::NaturalPerson));
    assert!(matches!(person.get_first_name(), "John"));
    assert!(matches!(person.get_last_name(), "Doe"));
    assert!(matches!(person.get_legal_person_type(), PersonType::NaturalPerson));
}
