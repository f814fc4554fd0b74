use derived_cms::article::{Article, ArticleVeto};
use derived_cms::column::ColumnValue;
use derived_cms::context::{Context, ContextExt, ContextTrait};
use derived_cms::engine::{
    create_entity, delete_entity, fetch_entity, list_entities, update_entity, OpError,
};
use derived_cms::entity::{duplicate, register_entity, Entity, RegistrationError};
use derived_cms::store::Store;
use derived_cms::wire::{decode_wire, encode_wire, from_row, to_row, WireField, WireRecord};

fn sample() -> Article {
    Article {
        id: 7,
        title: "hello".to_string(),
        published: true,
        locked: false,
    }
}

fn wire_payload(id: u64, title: &str, published: bool, locked: bool) -> WireRecord {
    WireRecord {
        id_field: "id".to_string(),
        id,
        fields: vec![
            WireField {
                name: "title".to_string(),
                value: ColumnValue::Text(title.to_string()),
            },
            WireField {
                name: "published".to_string(),
                value: ColumnValue::Bool(published),
            },
            WireField {
                name: "locked".to_string(),
                value: ColumnValue::Bool(locked),
            },
        ],
    }
}

fn actor() -> Option<String> {
    Some("editor".to_string())
}

#[test]
fn columns_are_index_aligned() {
    let a = sample();
    let names = Article::column_names();
    let values = a.column_values();
    assert_eq!(names.len(), values.len());
    assert_eq!(names[0], "title");
    assert_eq!(values[0], ColumnValue::Text("hello".to_string()));
    assert_eq!(names[1], "published");
    assert_eq!(values[1], ColumnValue::Bool(true));
    assert_eq!(names[2], "locked");
    assert_eq!(values[2], ColumnValue::Bool(false));
}

#[test]
fn wire_round_trip_preserves_entity() {
    let a = sample();
    let rec = encode_wire(&a);
    assert_eq!(rec.id_field, "id");
    assert_eq!(rec.id, 7);
    assert_eq!(rec.fields.len(), 3);
    let back: Article = decode_wire(&rec).expect("decodes");
    assert_eq!(back, a);
}

#[test]
fn row_round_trip_preserves_entity() {
    let a = sample();
    let row = to_row(&a);
    assert_eq!(row.id, 7);
    let back: Article = from_row(&row).expect("maps back");
    assert_eq!(back, a);
}

#[test]
fn duplicate_is_exact() {
    let a = sample();
    let b = duplicate(&a);
    assert_eq!(a, b);
}

#[test]
fn create_with_passing_hook_is_unconditional() {
    let mut store: Store<Article> = Store::new();
    let r = create_entity(&mut store, actor(), &wire_payload(1, "a", false, false));
    assert_eq!(r, Ok(1));
    let got = fetch_entity(&store, "1").expect("stored");
    assert_eq!(
        got,
        Article {
            id: 1,
            title: "a".to_string(),
            published: false,
            locked: false
        }
    );
}

#[test]
fn update_with_passing_hook_is_unconditional() {
    let mut store: Store<Article> = Store::new();
    create_entity(&mut store, actor(), &wire_payload(1, "a", false, false)).unwrap();
    let r = update_entity(&mut store, actor(), "1", &wire_payload(1, "b", true, false));
    assert_eq!(
        r,
        Ok(Article {
            id: 1,
            title: "b".to_string(),
            published: true,
            locked: false
        })
    );
    let got = fetch_entity(&store, "1").expect("still stored");
    assert_eq!(got.title, "b");
    assert!(got.published);
}

#[test]
fn delete_with_passing_hook_is_unconditional() {
    let mut store: Store<Article> = Store::new();
    create_entity(&mut store, actor(), &wire_payload(1, "a", false, false)).unwrap();
    let r = delete_entity(&mut store, actor(), "1");
    assert_eq!(
        r,
        Ok(Article {
            id: 1,
            title: "a".to_string(),
            published: false,
            locked: false
        })
    );
    assert_eq!(fetch_entity(&store, "1"), Err(OpError::NotFound), "row must be gone");
}

#[test]
fn update_uses_path_id_not_payload_id() {
    let mut store: Store<Article> = Store::new();
    create_entity(&mut store, actor(), &wire_payload(1, "a", false, false)).unwrap();
    let r = update_entity(&mut store, actor(), "1", &wire_payload(99, "b", false, false));
    assert_eq!(r.unwrap().id, 1);
    assert_eq!(fetch_entity(&store, "1").unwrap().title, "b");
}

#[test]
fn rejected_update_leaves_row_unchanged() {
    let mut store: Store<Article> = Store::new();
    create_entity(&mut store, actor(), &wire_payload(1, "a", true, true)).unwrap();
    let before = fetch_entity(&store, "1").unwrap();
    let r = update_entity(&mut store, actor(), "1", &wire_payload(1, "b", false, false));
    assert_eq!(r, Err(OpError::Rejected(ArticleVeto::Locked)));
    let after = fetch_entity(&store, "1").unwrap();
    assert_eq!(before, after, "stored row must be unchanged after a rejected hook");
}

#[test]
fn rejected_delete_leaves_row_in_place() {
    let mut store: Store<Article> = Store::new();
    create_entity(&mut store, actor(), &wire_payload(1, "a", true, true)).unwrap();
    let r = delete_entity(&mut store, actor(), "1");
    assert_eq!(r, Err(OpError::Rejected(ArticleVeto::Locked)));
    assert_eq!(fetch_entity(&store, "1").unwrap().title, "a");
}

#[test]
fn unparsable_id_fails_before_any_entity_work() {
    let mut store: Store<Article> = Store::new();
    create_entity(&mut store, actor(), &wire_payload(1, "a", true, true)).unwrap();
    let before = list_entities(&store);
    let r = update_entity(&mut store, actor(), "not-a-number", &wire_payload(1, "b", false, false));
    assert_eq!(r, Err(OpError::InvalidId), "not the lock veto: the hook layer is never reached");
    let d = delete_entity(&mut store, actor(), "12x");
    assert_eq!(d, Err(OpError::InvalidId));
    assert_eq!(list_entities(&store), before);
}

#[test]
fn missing_extension_short_circuits() {
    let mut store: Store<Article> = Store::new();
    let r = create_entity(&mut store, None, &wire_payload(1, "a", false, false));
    assert_eq!(r, Err(OpError::ExtensionRefused));
    let u = update_entity(&mut store, None, "1", &wire_payload(1, "a", false, false));
    assert_eq!(u, Err(OpError::ExtensionRefused));
    let d = delete_entity(&mut store, None, "1");
    assert_eq!(d, Err(OpError::ExtensionRefused));
    assert_eq!(store.len(), 0);
}

#[test]
fn bad_payload_is_rejected() {
    let mut store: Store<Article> = Store::new();
    let mut rec = wire_payload(1, "a", false, false);
    rec.fields[0].name = "headline".to_string();
    let r = create_entity(&mut store, actor(), &rec);
    assert_eq!(r, Err(OpError::InvalidPayload));
    assert_eq!(store.len(), 0);
}

#[test]
fn duplicate_id_conflicts() {
    let mut store: Store<Article> = Store::new();
    create_entity(&mut store, actor(), &wire_payload(1, "a", false, false)).unwrap();
    let r = create_entity(&mut store, actor(), &wire_payload(1, "b", true, false));
    assert_eq!(r, Err(OpError::Conflict));
    assert_eq!(fetch_entity(&store, "1").unwrap().title, "a");
}

#[test]
fn missing_row_is_not_found() {
    let mut store: Store<Article> = Store::new();
    let r = update_entity(&mut store, actor(), "5", &wire_payload(5, "a", false, false));
    assert_eq!(r, Err(OpError::NotFound));
    assert_eq!(fetch_entity(&store, "5"), Err(OpError::NotFound));
    assert_eq!(delete_entity(&mut store, actor(), "5"), Err(OpError::NotFound));
}

#[test]
fn list_returns_rows_in_storage_order() {
    let mut store: Store<Article> = Store::new();
    create_entity(&mut store, actor(), &wire_payload(2, "b", false, false)).unwrap();
    create_entity(&mut store, actor(), &wire_payload(1, "a", true, false)).unwrap();
    let all = list_entities(&store);
    assert_eq!(all.len(), 2);
    assert_eq!(all[0].id, 2);
    assert_eq!(all[1].id, 1);
}

#[test]
fn entity_route_table_comes_from_declared_names() {
    let routes = Article::routes();
    assert_eq!(routes.len(), 11);
    assert_eq!(routes[0].path, "/api/v1/articles");
    assert_eq!(routes[10].path, "/article/:id/delete");
}

#[test]
fn registration_records_plural_name_once() {
    let mut ctx: Context<u32, ()> = Context::new(0, "/var/uploads".to_string(), ());
    let routes = register_entity::<Article, _, _>(&mut ctx).expect("no collision");
    assert_eq!(routes, Article::routes());
    assert!(ctx.contains_name(&"Articles".to_string()));
    register_entity::<Article, _, _>(&mut ctx).expect("re-registration is not a collision");
    assert_eq!(ctx.names_plural(), vec!["Articles".to_string()]);
}

#[test]
fn registration_refuses_colliding_plural_slug() {
    let mut ctx: Context<u32, ()> = Context::new(0, "/var/uploads".to_string(), ());
    ctx.register_name("articles".to_string());
    let r = register_entity::<Article, _, _>(&mut ctx);
    assert_eq!(r, Err(RegistrationError::SlugCollision));
    assert_eq!(ctx.names_plural(), vec!["articles".to_string()]);
    assert!(!ctx.slug_collides(&"authors".to_string()));
    assert!(ctx.slug_collides(&"ARTICLES".to_string()));
}

#[test]
fn context_clone_yields_same_names() {
    let mut ctx: Context<u32, ()> = Context::new(0, "/var/uploads".to_string(), ());
    ctx.register_name("articles".to_string());
    ctx.register_name("authors".to_string());
    ctx.register_name("articles".to_string());
    let copy = ctx.clone();
    let first = copy.names_plural();
    let second = copy.names_plural();
    assert_eq!(first, second);
    assert_eq!(first, vec!["articles".to_string(), "authors".to_string()]);
    assert_eq!(ctx.names_plural(), first);
    assert_eq!(copy.uploads_dir(), "/var/uploads");
}

#[test]
fn unit_extension_projects_from_any_context() {
    let ctx: Context<u32, ()> = Context::new(0, "/tmp/uploads".to_string(), ());
    <() as ContextExt<Context<u32, ()>>>::project(&ctx);
    assert_eq!(ctx.ext(), &());
    assert_eq!(ctx.db(), &0);
}
