use product_catalog::product::ProductQuery;
use product_catalog::user::User;

#[test]
fn user_holds_its_fields() {
    let user = User {
        uuid: "7f9c2ba4".to_string(),
        username: "ada".to_string(),
        password_hash: "$argon2id$v=19$m=16,t=2,p=1$c2FsdA$aGFzaA".to_string(),
    };
    let copy = user.clone();
    assert_eq!(copy.uuid, "7f9c2ba4");
    assert_eq!(copy.username, "ada");
    assert_eq!(copy.password_hash, user.password_hash);
}

#[test]
fn query_holds_the_name() {
    let query = ProductQuery { name: "Nutella".to_string() };
    assert_eq!(query.clone(), query);
    assert_eq!(query.name, "Nutella");
}
