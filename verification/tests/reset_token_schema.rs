use backend::schema::{
    dropped_table, password_reset_token_table, ColumnDef, ColumnKind, Migration, OnDelete, Schema, SchemaError,
    TableDef,
};

#[test]
fn reset_token_table_columns() {
    let t = password_reset_token_table();
    assert_eq!(t.name, "password_reset_token");
    assert!(t.if_not_exists);
    let cols: Vec<(&str, ColumnKind, bool, bool, bool, bool)> = t
        .columns
        .iter()
        .map(|c| (c.name, c.kind, c.not_null, c.primary_key, c.unique, c.defaults_to_now))
        .collect();
    assert_eq!(
        cols,
        vec![
            ("id", ColumnKind::Uuid, true, true, false, false),
            ("user_id", ColumnKind::Uuid, true, false, false, false),
            ("token", ColumnKind::Text, true, false, true, false),
            ("expires_at", ColumnKind::TimestampWithTimeZone, true, false, false, false),
            ("created_at", ColumnKind::TimestampWithTimeZone, true, false, false, true),
        ]
    );
}

#[test]
fn reset_token_belongs_to_a_user() {
    let t = password_reset_token_table();
    assert_eq!(t.foreign_keys.len(), 1);
    let fk = &t.foreign_keys[0];
    assert_eq!((fk.name, fk.column, fk.target_table, fk.target_column), ("fk_reset_token_user_id", "user_id", "user", "id"));
    assert_eq!(fk.on_delete, OnDelete::Cascade);
    assert_eq!(dropped_table(), "password_reset_token");
}

fn plain_table(name: &'static str) -> TableDef {
    TableDef {
        name,
        if_not_exists: false,
        columns: vec![ColumnDef {
            name: "id",
            kind: ColumnKind::Uuid,
            not_null: true,
            primary_key: true,
            unique: false,
            defaults_to_now: false,
        }],
        foreign_keys: vec![],
    }
}

fn table_names(schema: &Schema) -> Vec<&'static str> {
    schema.tables.iter().map(|t| t.name).collect()
}

#[test]
fn up_needs_the_user_table() {
    let mut schema = Schema::new();
    assert_eq!(Migration.up(&mut schema), Err(SchemaError::ReferencedTableNotFound));
    assert!(schema.tables.is_empty());
}

#[test]
fn up_twice_changes_nothing_the_second_time() {
    let mut schema = Schema::new();
    assert_eq!(schema.create_table(plain_table("user")), Ok(()));
    assert_eq!(Migration.up(&mut schema), Ok(()));
    assert_eq!(table_names(&schema), vec!["user", "password_reset_token"]);
    assert_eq!(schema.tables[1].columns.len(), 5);
    assert_eq!(Migration.up(&mut schema), Ok(()));
    assert_eq!(table_names(&schema), vec!["user", "password_reset_token"]);
    assert!(schema.has_table("password_reset_token"));
}

#[test]
fn down_undoes_up() {
    let mut schema = Schema::new();
    assert_eq!(schema.create_table(plain_table("user")), Ok(()));
    assert_eq!(schema.create_table(plain_table("session")), Ok(()));
    assert_eq!(Migration.up(&mut schema), Ok(()));
    assert_eq!(Migration.down(&mut schema), Ok(()));
    assert_eq!(table_names(&schema), vec!["user", "session"]);
    assert!(!schema.has_table("password_reset_token"));
}

#[test]
fn down_without_the_table_is_refused() {
    let mut schema = Schema::new();
    assert_eq!(schema.create_table(plain_table("user")), Ok(()));
    assert_eq!(Migration.down(&mut schema), Err(SchemaError::TableNotFound));
    assert_eq!(table_names(&schema), vec!["user"]);
}

#[test]
fn creating_an_existing_table_without_if_not_exists_is_refused() {
    let mut schema = Schema::new();
    assert_eq!(schema.create_table(plain_table("user")), Ok(()));
    assert_eq!(schema.create_table(plain_table("user")), Err(SchemaError::TableExists));
    assert_eq!(table_names(&schema), vec!["user"]);
}

#[test]
fn dropping_one_table_keeps_the_others_in_order() {
    let mut schema = Schema::new();
    for name in ["a", "b", "c"] {
        assert_eq!(schema.create_table(plain_table(name)), Ok(()));
    }
    assert_eq!(schema.drop_table("b"), Ok(()));
    assert_eq!(table_names(&schema), vec!["a", "c"]);
    assert_eq!(schema.drop_table("b"), Err(SchemaError::TableNotFound));
}
