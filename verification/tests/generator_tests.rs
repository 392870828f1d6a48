// The generator, the derive pipeline, duplicate detection and rendering,
// exercised on concrete definitions.

use typemap_meta::frontend::{impl_typemap_macro, typemap_macro_derive};
use typemap_meta::generator::{find_duplicate_type, generate, has_mut_attr};
use typemap_meta::model::{AggregateDef, DataShape, DeriveError, FieldsShape, ShapeError};
use typemap_meta::render::render_position;

fn strings(ss: &[&str]) -> Vec<String> {
    ss.iter().map(|s| s.to_string()).collect()
}

fn tuple_def(name: &str, generics: &str, fields: &[&str], attrs: &[&str]) -> AggregateDef {
    AggregateDef {
        name: name.to_string(),
        generics: generics.to_string(),
        data: DataShape::Struct(FieldsShape::Tuple(strings(fields))),
        attrs: strings(attrs),
    }
}

#[test]
fn generate_one_impl_per_field() {
    let def = tuple_def("Test", "", &["i32", "f32"], &[]);
    let impls = generate(&def).unwrap();
    assert_eq!(impls.len(), 2);
    assert_eq!(impls[0].target, "i32");
    assert_eq!(impls[0].position, 0);
    assert!(!impls[0].mutable);
    assert_eq!(impls[1].target, "f32");
    assert_eq!(impls[1].position, 1);
    assert!(!impls[1].mutable);
    assert_eq!(impls[0].aggregate, "Test");
    assert_eq!(impls[1].aggregate, "Test");
}

#[test]
fn generate_mutable_marker_doubles_the_plan() {
    let def = tuple_def("Test", "", &["i32", "f32"], &["typemap_mut"]);
    let impls = generate(&def).unwrap();
    assert_eq!(impls.len(), 4);
    assert!(!impls[0].mutable);
    assert!(!impls[1].mutable);
    assert!(impls[2].mutable);
    assert!(impls[3].mutable);
    assert_eq!(impls[2].target, "i32");
    assert_eq!(impls[2].position, 0);
    assert_eq!(impls[3].target, "f32");
    assert_eq!(impls[3].position, 1);
}

#[test]
fn generate_rejects_wrong_shapes() {
    let e = AggregateDef {
        name: "E".to_string(),
        generics: String::new(),
        data: DataShape::Enum,
        attrs: Vec::new(),
    };
    assert_eq!(generate(&e).unwrap_err(), ShapeError::NotAStruct);

    let u = AggregateDef {
        name: "U".to_string(),
        generics: String::new(),
        data: DataShape::Union,
        attrs: Vec::new(),
    };
    assert_eq!(generate(&u).unwrap_err(), ShapeError::NotAStruct);

    let named = AggregateDef {
        name: "N".to_string(),
        generics: String::new(),
        data: DataShape::Struct(FieldsShape::Named),
        attrs: Vec::new(),
    };
    assert_eq!(generate(&named).unwrap_err(), ShapeError::NotATupleStruct);

    let unit = AggregateDef {
        name: "V".to_string(),
        generics: String::new(),
        data: DataShape::Struct(FieldsShape::Unit),
        attrs: Vec::new(),
    };
    assert_eq!(generate(&unit).unwrap_err(), ShapeError::NotATupleStruct);
}

#[test]
fn degenerate_aggregate_generates_nothing() {
    let def = tuple_def("Empty", "", &[], &["typemap_mut"]);
    let impls = generate(&def).unwrap();
    assert_eq!(impls.len(), 0);
    assert_eq!(impl_typemap_macro(&def).unwrap(), "");
}

#[test]
fn generated_impls_carry_the_generics() {
    let def = tuple_def("Pair", "< T >", &["T", "u32"], &["typemap_mut"]);
    let impls = generate(&def).unwrap();
    assert_eq!(impls.len(), 4);
    for im in &impls {
        assert_eq!(im.generics, "< T >");
        assert_eq!(im.aggregate, "Pair");
    }
}

#[test]
fn expand_renders_exact_text() {
    let def = tuple_def("Test", "", &["i32", "f32"], &[]);
    let code = impl_typemap_macro(&def).unwrap();
    assert_eq!(
        code,
        "impl Get<i32> for Test { fn get(&self) -> &i32 { &self.0 } }\n\
         impl Get<f32> for Test { fn get(&self) -> &f32 { &self.1 } }\n"
    );
}

#[test]
fn expand_renders_mutable_text() {
    let def = tuple_def("Test", "", &["i32"], &["typemap_mut"]);
    let code = impl_typemap_macro(&def).unwrap();
    assert_eq!(
        code,
        "impl Get<i32> for Test { fn get(&self) -> &i32 { &self.0 } }\n\
         impl GetMut<i32> for Test { fn get_mut(&mut self) -> &mut i32 { &mut self.0 } }\n"
    );
}

#[test]
fn expand_renders_generics_on_both_sides() {
    let def = tuple_def("Pair", "<T>", &["T"], &[]);
    let code = impl_typemap_macro(&def).unwrap();
    assert_eq!(code, "impl <T> Get<T> for Pair <T> { fn get(&self) -> &T { &self.0 } }\n");
}

#[test]
fn pipeline_parses_and_expands() {
    let code = typemap_macro_derive("struct Test(i32, f32);").unwrap();
    assert_eq!(
        code,
        "impl Get<i32> for Test { fn get(&self) -> &i32 { &self.0 } }\n\
         impl Get<f32> for Test { fn get(&self) -> &f32 { &self.1 } }\n"
    );
}

#[test]
fn pipeline_honours_the_mutable_marker() {
    let code = typemap_macro_derive("#[typemap_mut] struct Test(i32);").unwrap();
    assert_eq!(
        code,
        "impl Get<i32> for Test { fn get(&self) -> &i32 { &self.0 } }\n\
         impl GetMut<i32> for Test { fn get_mut(&mut self) -> &mut i32 { &mut self.0 } }\n"
    );
}

#[test]
fn pipeline_carries_generics() {
    let code = typemap_macro_derive("struct Test<'l>(&'l i32, f32);").unwrap();
    // The lifetime parameter list is repeated on both sides of each impl,
    // and the reference-typed target names the lifetime twice more.
    assert_eq!(code.matches("'l").count(), 6);
    assert!(code.contains("Get<f32> for Test"));
    assert!(code.contains("&self.0"));
    assert!(code.contains("&self.1"));
}

#[test]
fn pipeline_rejects_wrong_shapes() {
    assert_eq!(
        typemap_macro_derive("struct Test { x: i32 }").unwrap_err(),
        DeriveError::Shape(ShapeError::NotATupleStruct)
    );
    assert_eq!(
        typemap_macro_derive("struct Test;").unwrap_err(),
        DeriveError::Shape(ShapeError::NotATupleStruct)
    );
    assert_eq!(
        typemap_macro_derive("enum E { A }").unwrap_err(),
        DeriveError::Shape(ShapeError::NotAStruct)
    );
    assert_eq!(
        typemap_macro_derive("union U { x: u32 }").unwrap_err(),
        DeriveError::Shape(ShapeError::NotAStruct)
    );
}

#[test]
fn pipeline_rejects_garbage() {
    assert_eq!(
        typemap_macro_derive("this is not a declaration").unwrap_err(),
        DeriveError::Unparsable
    );
}

#[test]
fn pipeline_accepts_the_degenerate_aggregate() {
    assert_eq!(typemap_macro_derive("struct Empty();").unwrap(), "");
}

#[test]
fn duplicate_types_are_found() {
    assert_eq!(find_duplicate_type(&strings(&["i32", "f32", "i32"])), Some((0, 2)));
    assert_eq!(find_duplicate_type(&strings(&["u8", "u8"])), Some((0, 1)));
    assert_eq!(find_duplicate_type(&strings(&["i32", "f32", "u8"])), None);
    assert_eq!(find_duplicate_type(&strings(&[])), None);
}

#[test]
fn mutable_marker_is_recognised() {
    assert!(has_mut_attr(&strings(&["typemap_mut"])));
    assert!(has_mut_attr(&strings(&["derive", "typemap_mut"])));
    assert!(!has_mut_attr(&strings(&["typemap_mut_x"])));
    assert!(!has_mut_attr(&strings(&[])));
}

#[test]
fn positions_render_in_decimal() {
    assert_eq!(render_position(0), "0");
    assert_eq!(render_position(7), "7");
    assert_eq!(render_position(10), "10");
    assert_eq!(render_position(105), "105");
}
