use anime_api::handler::{
    delete_reply, edit_plan, get_reply, insert_failure_reply, new_anime, path_id, update_outcome,
    written_reply, DbError, Reply, ReplyBody,
};
use anime_api::model::{AnimeModel, AnimeModelResponse};
use anime_api::schema::{CreateAnimeSchema, UpdateAnimeSchema};

struct Store {
    rows: Vec<AnimeModel>,
    clock: i64,
}

impl Store {
    fn insert(&mut self, id: &str, title: &str, description: &str) -> Result<u64, String> {
        if self.rows.iter().any(|r| r.title == title || r.id == id) {
            return Err(format!("Duplicate entry '{}' for key 'animes.title'", title));
        }
        self.clock += 1;
        self.rows.push(AnimeModel {
            id: id.to_string(),
            title: title.to_string(),
            description: Some(description.to_string()),
            created_at: Some(self.clock),
            updated_at: Some(self.clock),
        });
        Ok(1)
    }

    fn fetch(&self, id: &str) -> Result<AnimeModel, DbError> {
        self.rows.iter().find(|r| r.id == id).cloned().ok_or(DbError::RowNotFound)
    }

    fn update(&mut self, id: &str, title: &str, description: &str) -> Result<u64, String> {
        self.clock += 1;
        let now = self.clock;
        match self.rows.iter_mut().find(|r| r.id == id) {
            Some(r) => {
                r.title = title.to_string();
                r.description = Some(description.to_string());
                r.updated_at = Some(now);
                Ok(1)
            }
            None => Ok(0),
        }
    }

    fn delete(&mut self, id: &str) -> Result<u64, String> {
        let before = self.rows.len();
        self.rows.retain(|r| r.id != id);
        Ok((before - self.rows.len()) as u64)
    }
}

fn record(r: Reply) -> AnimeModelResponse {
    assert_eq!(r.code, 200);
    match r.body {
        ReplyBody::Anime { anime } => anime,
        other => panic!("{:?}", other),
    }
}

#[test]
fn naruto_end_to_end() {
    let mut store = Store { rows: vec![], clock: 1000 };

    let w = new_anime(&CreateAnimeSchema { title: "Naruto".to_string(), description: None });
    store.insert(&w.id, &w.title, &w.description).unwrap();
    let created = record(written_reply(store.fetch(&w.id)));
    assert_eq!(created.title, "Naruto");
    assert_eq!(created.description, "");
    assert_eq!(created.id.len(), 36);
    assert!(created.createdAt > 0 && created.updatedAt > 0);

    let id = path_id(&created.id).unwrap();
    let fetched = record(get_reply(&id, store.fetch(&id)));
    assert_eq!(fetched.id, created.id);
    assert_eq!(fetched.title, created.title);
    assert_eq!(fetched.updatedAt, created.updatedAt);

    let body = UpdateAnimeSchema { title: None, description: Some("ninja saga".to_string()) };
    let plan = edit_plan(&id, store.fetch(&id), &body).unwrap();
    assert!(update_outcome(&id, store.update(&plan.id, &plan.title, &plan.description)).is_none());
    let edited = record(written_reply(store.fetch(&id)));
    assert_eq!(edited.title, "Naruto");
    assert_eq!(edited.description, "ninja saga");
    assert!(edited.updatedAt > created.updatedAt);
    assert_eq!(edited.createdAt, created.createdAt);

    let gone = delete_reply(&id, store.delete(&id));
    assert_eq!(gone.code, 204);

    let after = get_reply(&id, store.fetch(&id));
    assert_eq!(after.code, 404);
}

#[test]
fn second_create_with_same_title_conflicts() {
    let mut store = Store { rows: vec![], clock: 0 };
    let first = new_anime(&CreateAnimeSchema {
        title: "Naruto".to_string(),
        description: Some("ninja".to_string()),
    });
    store.insert(&first.id, &first.title, &first.description).unwrap();
    let created = record(written_reply(store.fetch(&first.id)));
    assert_eq!(created.title, "Naruto");
    assert_eq!(created.description, "ninja");

    let second = new_anime(&CreateAnimeSchema { title: "Naruto".to_string(), description: None });
    let err = store.insert(&second.id, &second.title, &second.description).unwrap_err();
    let r = insert_failure_reply(&err);
    assert_eq!(r.code, 400);
}

#[test]
fn unknown_id_is_not_found_among_many() {
    let mut store = Store { rows: vec![], clock: 0 };
    for t in ["A", "B", "C"] {
        let w = new_anime(&CreateAnimeSchema { title: t.to_string(), description: None });
        store.insert(&w.id, &w.title, &w.description).unwrap();
    }
    let id = "7d444840-9dc0-11d1-b245-5ffdce74fad2";
    let r = get_reply(id, store.fetch(id));
    assert_eq!(r.code, 404);
}

#[test]
fn update_of_neither_field_refreshes_time() {
    let mut store = Store { rows: vec![], clock: 0 };
    let w = new_anime(&CreateAnimeSchema { title: "Monster".to_string(), description: Some("x".to_string()) });
    store.insert(&w.id, &w.title, &w.description).unwrap();
    let before = store.fetch(&w.id).unwrap();
    let plan = edit_plan(&w.id, Ok(before.clone()), &UpdateAnimeSchema { title: None, description: None }).unwrap();
    assert!(update_outcome(&w.id, store.update(&plan.id, &plan.title, &plan.description)).is_none());
    let after = record(written_reply(store.fetch(&w.id)));
    assert_eq!(after.title, "Monster");
    assert_eq!(after.description, "x");
    assert!(after.updatedAt > before.updated_at.unwrap());
}
