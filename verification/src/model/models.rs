use vstd::prelude::*;

use crate::errors::AppError;
use crate::query::{clone_opt_string, opt_text_view, Bind, BindV, Statement};
use crate::user::models::{UserList, MSG_EMPTY};

verus! {

/// The aggregate select over models: each row carries the model's
/// columns plus the author, the uploads and the likes as JSON
/// aggregates.
pub const MODEL_SELECT_SQL: &'static str = "WITH model_uploads AS ( SELECT models.id, json_agg(uploads.*) filter(WHERE uploads.* IS NOT NULL) AS uploads FROM models LEFT JOIN uploads ON uploads.model_id = models.id GROUP BY models.id ), model_likes AS ( SELECT models.id, json_agg(likes.*) filter(WHERE likes.* IS NOT NULL) AS likes FROM models LEFT JOIN likes ON likes.model_id = models.id GROUP BY models.id ), model_author AS ( SELECT models.id, json_build_object('id', users.id, 'name', users.name, 'email', users.email, 'username', users.username, 'is_staff', users.is_staff, 'avatar', users.avatar) as author FROM models JOIN users ON users.id = models.author_id ) SELECT models.*, author, uploads, likes FROM models INNER JOIN model_author using (id) INNER JOIN model_uploads using (id) INNER JOIN model_likes using (id)";

/// Selection of one model by id, appended to the aggregate select.
pub const MODEL_WHERE_ID_SQL: &'static str = " WHERE models.id = $1";

/// Page window, newest first, appended to the aggregate select.
pub const MODEL_PAGE_SQL: &'static str = " ORDER BY id DESC LIMIT $1 OFFSET $2";

/// Search over name, description, printer and material, with its page
/// window, appended to the aggregate select.
pub const MODEL_FILTER_SQL: &'static str = " WHERE models.name ILIKE $1 OR description ILIKE $1 OR printer ILIKE $1 OR material ILIKE $1 ORDER BY id DESC LIMIT $2 OFFSET $3";

/// Selection of an author's models, with its page window, appended to
/// the aggregate select.
pub const MODEL_BY_AUTHOR_SQL: &'static str = " WHERE models.author_id = $1 ORDER BY id DESC LIMIT $2 OFFSET $3";

/// The SQL statement inserting a model.
pub const MODEL_INSERT_SQL: &'static str = "INSERT INTO models (name, description, duration, height, weight, printer, material, author_id, created, updated) VALUES ( $1, $2, $3, $4, $5, $6, $7, $8, $9, $10) RETURNING *";

/// The SQL statement updating a model.
pub const MODEL_EDIT_SQL: &'static str = "UPDATE models SET name = $1, description = $2, duration = $3, height = $4, weight = $5, printer = $6, material = $7, updated = $8 WHERE id = $9 RETURNING *";

/// The SQL statement deleting a model.
pub const MODEL_DELETE_SQL: &'static str = "DELETE FROM models WHERE id = $1";

/// The SQL statement counting all models.
pub const MODEL_COUNT_SQL: &'static str = "SELECT COUNT(id) as count FROM models";

/// The SQL statement counting an author's models.
pub const MODEL_COUNT_BY_AUTHOR_SQL: &'static str = "SELECT COUNT(id) as count FROM models WHERE author_id = $1";

/// The SQL statement counting the models a search matches.
pub const MODEL_COUNT_FILTER_SQL: &'static str = "SELECT COUNT(id) as count FROM models WHERE models.name ILIKE $1 OR description ILIKE $1 OR printer ILIKE $1 OR material ILIKE $1";

/// The SQL statement inserting an upload of a model.
pub const UPLOAD_INSERT_SQL: &'static str = "INSERT INTO uploads (filepath, model_id, created) VALUES ( $1, $2, $3) RETURNING *";

/// The SQL statement listing the uploads of a model.
pub const UPLOAD_FIND_BY_MODEL_SQL: &'static str = "SELECT * FROM uploads WHERE model_id = $1";

/// The SQL statement looking an upload up by id.
pub const UPLOAD_FIND_BY_ID_SQL: &'static str = "SELECT * FROM uploads WHERE id = $1";

/// The SQL statement deleting an upload.
pub const UPLOAD_DELETE_SQL: &'static str = "DELETE FROM uploads WHERE id = $1";

/// Model for models. The `duration`, `height` and `weight` columns are
/// decimal numbers; they are carried as their decimal text and the
/// database driver parses them into the column type. Timestamps are
/// Unix seconds.
#[derive(Debug)]
pub struct Model {
    pub id: i32,
    pub name: String,
    pub description: Option<String>,
    pub duration: String,
    pub height: String,
    pub weight: String,
    pub printer: Option<String>,
    pub material: Option<String>,
    pub author_id: i32,
    pub created: i64,
    pub updated: i64,
}

/// Payload used for model creation
#[derive(Debug)]
pub struct ModelCreate {
    pub name: String,
    pub description: Option<String>,
    pub duration: String,
    pub height: String,
    pub weight: String,
    pub printer: Option<String>,
    pub material: Option<String>,
}

/// Payload used for model searching
#[derive(Debug)]
pub struct ModelFilter {
    /// Stands for "query"
    pub q: String,
}

/// One row of the aggregate select: a model with its author, uploads
/// and likes.
#[derive(Debug)]
pub struct ModelUser {
    pub id: i32,
    pub name: String,
    pub description: Option<String>,
    pub duration: String,
    pub height: String,
    pub weight: String,
    pub printer: Option<String>,
    pub material: Option<String>,
    pub author_id: i32,
    pub created: i64,
    pub updated: i64,
    pub author: Option<UserList>,
    pub uploads: Option<Vec<ModelUpload>>,
    pub likes: Option<Vec<crate::likes::models::Like>>,
}

/// An upload belonging to a model.
#[derive(Debug)]
pub struct ModelUpload {
    pub id: i32,
    pub model_id: i32,
    pub filepath: String,
    pub created: i64,
}

impl Model {
    /// Whether the record passes validation: `name` at least 2
    /// characters.
    pub open spec fn spec_valid(&self) -> bool {
        self.name@.len() >= 2
    }

    /// A model not created yet: id = 0, stamped with the current time.
    pub fn new(
        name: String,
        description: Option<String>,
        duration: String,
        height: String,
        weight: String,
        printer: Option<String>,
        material: Option<String>,
        author_id: i32,
    ) -> (m: Model)
        ensures
            m.id == 0,
            m.name@ == name@,
            m.description == description,
            m.duration@ == duration@,
            m.height@ == height@,
            m.weight@ == weight@,
            m.printer == printer,
            m.material == material,
            m.author_id == author_id,
            m.created == m.updated,
    {
        let now = crate::clock::now_timestamp();
        Model {
            id: 0,
            name,
            description,
            duration,
            height,
            weight,
            printer,
            material,
            author_id,
            created: now,
            updated: now,
        }
    }

    /// Check the record's name length; a failure carries the message of
    /// the field that is too short.
    pub fn validate(&self) -> (r: Result<(), AppError>)
        ensures
            r is Ok <==> self.spec_valid(),
            r matches Err(e) ==> (e matches AppError::BadRequest(m) && m@ == MSG_EMPTY@),
    {
        if self.name.as_str().unicode_len() < 2 {
            Err(AppError::BadRequest(String::from_str(MSG_EMPTY)))
        } else {
            Ok(())
        }
    }

    /// The columns of the record bound in insert order.
    fn column_binds(model: &Model) -> (binds: Vec<Bind>)
        ensures
            binds@.map_values(|b: Bind| b@) =~= seq![
                BindV::Text(model.name@),
                BindV::OptText(opt_text_view(model.description)),
                BindV::Decimal(model.duration@),
                BindV::Decimal(model.height@),
                BindV::Decimal(model.weight@),
                BindV::OptText(opt_text_view(model.printer)),
                BindV::OptText(opt_text_view(model.material)),
            ],
    {
        let mut binds: Vec<Bind> = Vec::new();
        binds.push(Bind::Text(model.name.clone()));
        binds.push(Bind::OptText(clone_opt_string(&model.description)));
        binds.push(Bind::Decimal(model.duration.clone()));
        binds.push(Bind::Decimal(model.height.clone()));
        binds.push(Bind::Decimal(model.weight.clone()));
        binds.push(Bind::OptText(clone_opt_string(&model.printer)));
        binds.push(Bind::OptText(clone_opt_string(&model.material)));
        binds
    }

    /// Create a new model: the insert statement to run, or the
    /// validation error.
    pub fn create(model: Model) -> (r: Result<Statement, AppError>)
        ensures
            r is Ok <==> model.spec_valid(),
            r matches Ok(s) ==> s.sql@ == MODEL_INSERT_SQL@ && s@.binds =~= seq![
                BindV::Text(model.name@),
                BindV::OptText(opt_text_view(model.description)),
                BindV::Decimal(model.duration@),
                BindV::Decimal(model.height@),
                BindV::Decimal(model.weight@),
                BindV::OptText(opt_text_view(model.printer)),
                BindV::OptText(opt_text_view(model.material)),
                BindV::Id(model.author_id as int),
                BindV::Timestamp(model.created as int),
                BindV::Timestamp(model.updated as int),
            ],
            r matches Err(e) ==> (e matches AppError::BadRequest(m) && m@ == MSG_EMPTY@),
    {
        match model.validate() {
            Err(e) => Err(e),
            Ok(()) => {
                let mut binds = Model::column_binds(&model);
                binds.push(Bind::Id(model.author_id));
                binds.push(Bind::Timestamp(model.created));
                binds.push(Bind::Timestamp(model.updated));
                Ok(Statement { sql: String::from_str(MODEL_INSERT_SQL), binds })
            },
        }
    }

    /// Edit the model with id = `id`: the update statement to run, or
    /// the validation error.
    pub fn edit(id: i32, model: Model) -> (r: Result<Statement, AppError>)
        ensures
            r is Ok <==> model.spec_valid(),
            r matches Ok(s) ==> s.sql@ == MODEL_EDIT_SQL@ && s@.binds =~= seq![
                BindV::Text(model.name@),
                BindV::OptText(opt_text_view(model.description)),
                BindV::Decimal(model.duration@),
                BindV::Decimal(model.height@),
                BindV::Decimal(model.weight@),
                BindV::OptText(opt_text_view(model.printer)),
                BindV::OptText(opt_text_view(model.material)),
                BindV::Timestamp(model.updated as int),
                BindV::Id(id as int),
            ],
            r matches Err(e) ==> (e matches AppError::BadRequest(m) && m@ == MSG_EMPTY@),
    {
        match model.validate() {
            Err(e) => Err(e),
            Ok(()) => {
                let mut binds = Model::column_binds(&model);
                binds.push(Bind::Timestamp(model.updated));
                binds.push(Bind::Id(id));
                Ok(Statement { sql: String::from_str(MODEL_EDIT_SQL), binds })
            },
        }
    }

    /// The aggregate lookup for the model with id = `model_id`.
    pub fn find_by_id(model_id: i32) -> (s: Statement)
        ensures
            s.sql@ == MODEL_SELECT_SQL@ + MODEL_WHERE_ID_SQL@,
            s@.binds =~= seq![BindV::Id(model_id as int)],
    {
        let mut sql = String::from_str(MODEL_SELECT_SQL);
        sql.append(MODEL_WHERE_ID_SQL);
        let mut binds: Vec<Bind> = Vec::new();
        binds.push(Bind::Id(model_id));
        Statement { sql, binds }
    }

    /// The aggregate listing of one page of models: `limit` rows
    /// starting at row `limit * page`, newest first.
    pub fn list(page: i64, limit: i64) -> (s: Statement)
        requires
            0 <= page,
            0 <= limit,
            limit * page <= i64::MAX,
        ensures
            s.sql@ == MODEL_SELECT_SQL@ + MODEL_PAGE_SQL@,
            s@.binds =~= seq![BindV::Count(limit as int), BindV::Count(limit * page)],
    {
        let offset = crate::pagination::page_offset(limit, page);
        let mut sql = String::from_str(MODEL_SELECT_SQL);
        sql.append(MODEL_PAGE_SQL);
        let mut binds: Vec<Bind> = Vec::new();
        binds.push(Bind::Count(limit));
        binds.push(Bind::Count(offset));
        Statement { sql, binds }
    }

    /// The aggregate page of the models matching `query` in their name,
    /// description, printer or material.
    pub fn filter(page: i64, limit: i64, query: String) -> (s: Statement)
        requires
            0 <= page,
            0 <= limit,
            limit * page <= i64::MAX,
        ensures
            s.sql@ == MODEL_SELECT_SQL@ + MODEL_FILTER_SQL@,
            s@.binds =~= seq![
                BindV::Text("%"@ + query@ + "%"@),
                BindV::Count(limit as int),
                BindV::Count(limit * page),
            ],
    {
        let offset = crate::pagination::page_offset(limit, page);
        let mut sql = String::from_str(MODEL_SELECT_SQL);
        sql.append(MODEL_FILTER_SQL);
        let mut pattern = String::from_str("%");
        pattern.append(query.as_str());
        pattern.append("%");
        let mut binds: Vec<Bind> = Vec::new();
        binds.push(Bind::Text(pattern));
        binds.push(Bind::Count(limit));
        binds.push(Bind::Count(offset));
        Statement { sql, binds }
    }

    /// The aggregate page of an author's models.
    pub fn list_from_author(page: i64, limit: i64, author: i32) -> (s: Statement)
        requires
            0 <= page,
            0 <= limit,
            limit * page <= i64::MAX,
        ensures
            s.sql@ == MODEL_SELECT_SQL@ + MODEL_BY_AUTHOR_SQL@,
            s@.binds =~= seq![
                BindV::Id(author as int),
                BindV::Count(limit as int),
                BindV::Count(limit * page),
            ],
    {
        let offset = crate::pagination::page_offset(limit, page);
        let mut sql = String::from_str(MODEL_SELECT_SQL);
        sql.append(MODEL_BY_AUTHOR_SQL);
        let mut binds: Vec<Bind> = Vec::new();
        binds.push(Bind::Id(author));
        binds.push(Bind::Count(limit));
        binds.push(Bind::Count(offset));
        Statement { sql, binds }
    }

    /// The deletion of the model with id = `model_id`.
    pub fn delete(model_id: i32) -> (s: Statement)
        ensures
            s.sql@ == MODEL_DELETE_SQL@,
            s@.binds =~= seq![BindV::Id(model_id as int)],
    {
        let mut binds: Vec<Bind> = Vec::new();
        binds.push(Bind::Id(model_id));
        Statement { sql: String::from_str(MODEL_DELETE_SQL), binds }
    }

    /// The count of all models.
    pub fn count() -> (s: Statement)
        ensures
            s.sql@ == MODEL_COUNT_SQL@,
            s@.binds =~= Seq::<BindV>::empty(),
    {
        Statement { sql: String::from_str(MODEL_COUNT_SQL), binds: Vec::new() }
    }

    /// The count of an author's models.
    pub fn count_filter_by_author(author: i32) -> (s: Statement)
        ensures
            s.sql@ == MODEL_COUNT_BY_AUTHOR_SQL@,
            s@.binds =~= seq![BindV::Id(author as int)],
    {
        let mut binds: Vec<Bind> = Vec::new();
        binds.push(Bind::Id(author));
        Statement { sql: String::from_str(MODEL_COUNT_BY_AUTHOR_SQL), binds }
    }

    /// The count of the models matching `query`.
    pub fn count_filter(query: String) -> (s: Statement)
        ensures
            s.sql@ == MODEL_COUNT_FILTER_SQL@,
            s@.binds =~= seq![BindV::Text("%"@ + query@ + "%"@)],
    {
        let mut pattern = String::from_str("%");
        pattern.append(query.as_str());
        pattern.append("%");
        let mut binds: Vec<Bind> = Vec::new();
        binds.push(Bind::Text(pattern));
        Statement { sql: String::from_str(MODEL_COUNT_FILTER_SQL), binds }
    }
}

impl ModelUser {
    /// The id the author aggregate carries: 0 when the row has none.
    pub open spec fn spec_author_id(&self) -> int {
        match self.author {
            Some(u) => u.id as int,
            None => 0,
        }
    }

    /// Returns the author id from the aggregate.
    pub fn author_id(&self) -> (r: i32)
        ensures
            r == self.spec_author_id(),
    {
        match &self.author {
            Some(user) => user.id,
            None => 0,
        }
    }

    /// Returns a vec of string made by all the filepaths from the
    /// model's uploads, as freshly fetched; `None` when the aggregate
    /// carries no uploads.
    pub fn list_upload_filepaths(&self, fetched: &Vec<ModelUpload>) -> (r: Option<Vec<String>>)
        ensures
            r is Some <==> self.uploads is Some,
            r matches Some(paths) ==> paths@.map_values(|p: String| p@) =~= fetched@.map_values(
                |u: ModelUpload| u.filepath@,
            ),
    {
        if self.uploads.is_none() {
            return None;
        }
        let mut paths: Vec<String> = Vec::new();
        let mut i: usize = 0;
        while i < fetched.len()
            invariant
                i <= fetched@.len(),
                paths@.map_values(|p: String| p@) =~= fetched@.subrange(0, i as int).map_values(
                    |u: ModelUpload| u.filepath@,
                ),
            decreases fetched@.len() - i,
        {
            paths.push(fetched[i].filepath.clone());
            proof {
                assert(fetched@.subrange(0, i + 1).map_values(|u: ModelUpload| u.filepath@)
                    =~= fetched@.subrange(0, i as int).map_values(|u: ModelUpload| u.filepath@)
                        + seq![fetched@[i as int].filepath@]);
            }
            i = i + 1;
        }
        proof {
            assert(fetched@.subrange(0, fetched@.len() as int) =~= fetched@);
        }
        Some(paths)
    }
}

impl ModelUpload {
    /// An upload not created yet: id = 0, stamped with the current
    /// time.
    pub fn new(filepath: String, model_id: i32) -> (u: ModelUpload)
        ensures
            u.id == 0,
            u.filepath@ == filepath@,
            u.model_id == model_id,
    {
        let now = crate::clock::now_timestamp();
        ModelUpload { id: 0, filepath, model_id, created: now }
    }

    /// Create a new upload for model: the insert statement to run.
    pub fn create(file: ModelUpload) -> (s: Statement)
        ensures
            s.sql@ == UPLOAD_INSERT_SQL@,
            s@.binds =~= seq![
                BindV::Text(file.filepath@),
                BindV::Id(file.model_id as int),
                BindV::Timestamp(file.created as int),
            ],
    {
        let mut binds: Vec<Bind> = Vec::new();
        binds.push(Bind::Text(file.filepath));
        binds.push(Bind::Id(file.model_id));
        binds.push(Bind::Timestamp(file.created));
        Statement { sql: String::from_str(UPLOAD_INSERT_SQL), binds }
    }

    /// The listing of all uploads of a model.
    pub fn find_by_model(model_id: i32) -> (s: Statement)
        ensures
            s.sql@ == UPLOAD_FIND_BY_MODEL_SQL@,
            s@.binds =~= seq![BindV::Id(model_id as int)],
    {
        let mut binds: Vec<Bind> = Vec::new();
        binds.push(Bind::Id(model_id));
        Statement { sql: String::from_str(UPLOAD_FIND_BY_MODEL_SQL), binds }
    }

    /// The lookup for the upload with id = `upload_id`.
    pub fn find_by_id(id: i32) -> (s: Statement)
        ensures
            s.sql@ == UPLOAD_FIND_BY_ID_SQL@,
            s@.binds =~= seq![BindV::Id(id as int)],
    {
        let mut binds: Vec<Bind> = Vec::new();
        binds.push(Bind::Id(id));
        Statement { sql: String::from_str(UPLOAD_FIND_BY_ID_SQL), binds }
    }

    /// The deletion of the upload with id = `upload_id`.
    pub fn delete(upload_id: i32) -> (s: Statement)
        ensures
            s.sql@ == UPLOAD_DELETE_SQL@,
            s@.binds =~= seq![BindV::Id(upload_id as int)],
    {
        let mut binds: Vec<Bind> = Vec::new();
        binds.push(Bind::Id(upload_id));
        Statement { sql: String::from_str(UPLOAD_DELETE_SQL), binds }
    }
}

} // verus!
