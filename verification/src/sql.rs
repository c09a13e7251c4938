use vstd::prelude::*;

verus! {

/// A value bound to a placeholder of a statement.
#[derive(Clone, Debug, PartialEq, Eq)]
pub enum SqlValue {
    Integer(i64),
    Text(String),
}

/// What a bound value holds.
pub enum SqlValueView {
    Integer(int),
    Text(Seq<char>),
}

impl View for SqlValue {
    type V = SqlValueView;

    open spec fn view(&self) -> SqlValueView {
        match self {
            SqlValue::Integer(n) => SqlValueView::Integer(*n as int),
            SqlValue::Text(t) => SqlValueView::Text(t@),
        }
    }
}

/// What a list of bound values holds.
pub open spec fn bind_views(binds: Seq<SqlValue>) -> Seq<SqlValueView> {
    Seq::new(binds.len(), |i: int| binds[i]@)
}

/// The statements that the user routes send to the database.
#[derive(Clone, Debug, PartialEq, Eq)]
pub enum Query {
    /// One page of users, newest first.
    ListUsers { limit: u32, offset: i64 },
    /// The number of users.
    CountUsers,
    /// The id of the user with this email, if there is one.
    FindUserByEmail { email: String },
    /// The user with this id, if there is one.
    FindUserById { id: String },
    /// Stores a new user.
    InsertUser { id: String, name: String, email: String, created_at: String },
    /// Replaces name and email of the user with this id.
    UpdateUser { name: String, email: String, id: String },
    /// Removes the user with this id.
    DeleteUser { id: String },
}

impl Query {
    /// The text of the statement, with `?` for each bound value.
    pub open spec fn sql_spec(self) -> Seq<char> {
        match self {
            Query::ListUsers { .. } => "SELECT * FROM users ORDER BY created_at DESC LIMIT ? OFFSET ?"@,
            Query::CountUsers => "SELECT COUNT(*) as count FROM users"@,
            Query::FindUserByEmail { .. } => "SELECT id FROM users WHERE email = ?"@,
            Query::FindUserById { .. } => "SELECT * FROM users WHERE id = ?"@,
            Query::InsertUser {
                ..
            } => "INSERT INTO users (id, name, email, created_at) VALUES (?, ?, ?, ?)"@,
            Query::UpdateUser { .. } => "UPDATE users SET name = ?, email = ? WHERE id = ?"@,
            Query::DeleteUser { .. } => "DELETE FROM users WHERE id = ?"@,
        }
    }

    /// The values for the placeholders, in the order of the placeholders.
    pub open spec fn binds_spec(self) -> Seq<SqlValueView> {
        match self {
            Query::ListUsers { limit, offset } => seq![
                SqlValueView::Integer(limit as int),
                SqlValueView::Integer(offset as int),
            ],
            Query::CountUsers => Seq::empty(),
            Query::FindUserByEmail { email } => seq![SqlValueView::Text(email@)],
            Query::FindUserById { id } => seq![SqlValueView::Text(id@)],
            Query::InsertUser { id, name, email, created_at } => seq![
                SqlValueView::Text(id@),
                SqlValueView::Text(name@),
                SqlValueView::Text(email@),
                SqlValueView::Text(created_at@),
            ],
            Query::UpdateUser { name, email, id } => seq![
                SqlValueView::Text(name@),
                SqlValueView::Text(email@),
                SqlValueView::Text(id@),
            ],
            Query::DeleteUser { id } => seq![SqlValueView::Text(id@)],
        }
    }

    /// The text of the statement, with `?` for each bound value.
    pub fn sql(&self) -> (text: &'static str)
        ensures
            text@ == self.sql_spec(),
    {
        match self {
            Query::ListUsers { .. } => "SELECT * FROM users ORDER BY created_at DESC LIMIT ? OFFSET ?",
            Query::CountUsers => "SELECT COUNT(*) as count FROM users",
            Query::FindUserByEmail { .. } => "SELECT id FROM users WHERE email = ?",
            Query::FindUserById { .. } => "SELECT * FROM users WHERE id = ?",
            Query::InsertUser {
                ..
            } => "INSERT INTO users (id, name, email, created_at) VALUES (?, ?, ?, ?)",
            Query::UpdateUser { .. } => "UPDATE users SET name = ?, email = ? WHERE id = ?",
            Query::DeleteUser { .. } => "DELETE FROM users WHERE id = ?",
        }
    }

    /// The values for the placeholders, in the order of the placeholders.
    pub fn binds(&self) -> (binds: Vec<SqlValue>)
        ensures
            bind_views(binds@) == self.binds_spec(),
    {
        let mut binds: Vec<SqlValue> = Vec::new();
        match self {
            Query::ListUsers { limit, offset } => {
                binds.push(SqlValue::Integer(*limit as i64));
                binds.push(SqlValue::Integer(*offset));
            },
            Query::CountUsers => {},
            Query::FindUserByEmail { email } => {
                binds.push(SqlValue::Text(email.clone()));
            },
            Query::FindUserById { id } => {
                binds.push(SqlValue::Text(id.clone()));
            },
            Query::InsertUser { id, name, email, created_at } => {
                binds.push(SqlValue::Text(id.clone()));
                binds.push(SqlValue::Text(name.clone()));
                binds.push(SqlValue::Text(email.clone()));
                binds.push(SqlValue::Text(created_at.clone()));
            },
            Query::UpdateUser { name, email, id } => {
                binds.push(SqlValue::Text(name.clone()));
                binds.push(SqlValue::Text(email.clone()));
                binds.push(SqlValue::Text(id.clone()));
            },
            Query::DeleteUser { id } => {
                binds.push(SqlValue::Text(id.clone()));
            },
        }
        assert(bind_views(binds@) =~= self.binds_spec());
        binds
    }
}

} // verus!
