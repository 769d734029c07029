use aquafarm::domaine::{add_domaine_for_user, CreateDomaine, Domaine};
use aquafarm::element::Element;
use aquafarm::error::AuthError;
use aquafarm::production::Production;
use aquafarm::store::row_id_of;
use aquafarm::type_element::TypeElement;
use aquafarm::type_user::TypeUser;
use aquafarm::update::UpdateOutcome;

#[test]
fn row_id_is_the_insert_id_where_it_fits() {
    assert_eq!(row_id_of(0), 0);
    assert_eq!(row_id_of(1), 1);
    assert_eq!(row_id_of(2_147_483_647), i32::MAX);
}

#[test]
fn row_id_keeps_the_low_bits_of_a_large_insert_id() {
    assert_eq!(row_id_of(2_147_483_648), i32::MIN);
    assert_eq!(row_id_of(4_294_967_295), -1);
    assert_eq!(row_id_of(4_294_967_296), 0);
    assert_eq!(row_id_of(4_294_967_296 + 5), 5);
    assert_eq!(row_id_of(u64::MAX), -1);
}

#[test]
fn domaine_is_created_from_its_insert() {
    let d = Domaine::create(12, 3, "Les Etangs".to_string());
    assert_eq!((d.id, d.user_id, d.nom_domaine.as_str()), (12, 3, "Les Etangs"));
}

#[test]
fn element_is_created_from_its_insert() {
    let e = Element::create(5, 9, "Truites".to_string(), 250);
    assert_eq!((e.id, e.exploitation_id, e.nom_element.as_str(), e.quantite), (5, 9, "Truites", 250));
}

#[test]
fn kinds_are_created_from_their_inserts() {
    let t = TypeUser::create(2, "Pisciculteur".to_string());
    assert_eq!((t.id, t.nom_type_user.as_str()), (2, "Pisciculteur"));
    let t = TypeElement::create(4, "Poisson".to_string());
    assert_eq!((t.id, t.nom_type_element.as_str()), (4, "Poisson"));
}

#[test]
fn production_is_created_from_its_insert() {
    let day = chrono::NaiveDate::from_ymd_opt(2024, 5, 17).unwrap();
    let p = Production::create(8, 5, 120, "kg".to_string(), day);
    assert_eq!((p.id, p.element_id, p.quantite_produite), (8, 5, 120));
    assert_eq!(p.unite_production, "kg");
    assert_eq!(p.date_de_production, day);
}

#[test]
fn renaming_a_domaine_is_one_statement() {
    match Domaine::update_domaine(12, Some("Les Grands Etangs".to_string())) {
        UpdateOutcome::Apply(m) => {
            assert_eq!(m.statement(), "UPDATE domaines SET nom_domaine = ? WHERE id = ?");
            assert_eq!(m.parameters(), vec!["Les Grands Etangs".to_string(), "12".to_string()]);
        }
        UpdateOutcome::NoOp => panic!("a supplied name must give a statement"),
    }
}

#[test]
fn renaming_a_domaine_to_nothing_is_a_noop() {
    assert!(matches!(Domaine::update_domaine(12, None), UpdateOutcome::NoOp));
}

#[test]
fn a_domaine_of_ones_own_goes_to_the_caller() {
    let form = CreateDomaine { user_id: 999, nom_domaine: "Les Etangs".to_string() };
    let created = add_domaine_for_user(Some(3), form).unwrap();
    assert_eq!((created.user_id, created.nom_domaine.as_str()), (3, "Les Etangs"));
}

#[test]
fn a_domaine_of_ones_own_needs_the_callers_account() {
    let form = CreateDomaine { user_id: 3, nom_domaine: "Les Etangs".to_string() };
    assert_eq!(add_domaine_for_user(None, form).unwrap_err(), AuthError::StoreError);
}
