//! The query that reads a change stream.

use crate::error::InternalError;
use crate::identifier::{
    escape_identifier, escaped_identifier, is_valid_identifier, law_escaping_is_injective,
    law_names_are_quoted_or_refused, quoted,
};
use crate::wire::{
    digits_value, encode_int64, integer_text, is_decimal, law_integers_read_back,
};
use vstd::prelude::*;

verus! {

/// `time::OffsetDateTime`, a point in time of the `time` crate. Queries carry it as it is.
#[verifier::external_type_specification]
#[verifier::external_body]
pub struct ExOffsetDateTime(time::OffsetDateTime);

/// The heartbeat interval of a query that sets none, in milliseconds.
pub const DEFAULT_HEARTBEAT_MILLISECONDS: i64 = 10_000;

/// The value of a query parameter. `None` stands for SQL's `NULL`.
#[derive(Clone, Debug)]
pub enum ParamValue {
    Timestamp(Option<time::OffsetDateTime>),
    String(Option<String>),
    Int64(i64),
}

/// The mathematical value of a [`ParamValue`].
pub enum ParamView {
    Timestamp(Option<time::OffsetDateTime>),
    String(Option<Seq<char>>),
    Int64(i64),
}

impl ParamView {
    /// The text under which an integer travels to the service; `None` for other values.
    pub open spec fn int64_text(self) -> Option<Seq<char>> {
        match self {
            ParamView::Int64(n) => Some(integer_text(n as int)),
            _ => None,
        }
    }
}

impl DeepView for ParamValue {
    type V = ParamView;

    open spec fn deep_view(&self) -> ParamView {
        match *self {
            ParamValue::Timestamp(t) => ParamView::Timestamp(t),
            ParamValue::String(s) => ParamView::String(s.deep_view()),
            ParamValue::Int64(n) => ParamView::Int64(n),
        }
    }
}

impl ParamValue {
    /// The text under which an integer travels to the service: its decimal digits. `None` for other
    /// values.
    pub fn int64_text(&self) -> (text: Option<String>)
        ensures
            text.deep_view() == self.deep_view().int64_text(),
    {
        match self {
            ParamValue::Int64(n) => Some(encode_int64(*n)),
            _ => None,
        }
    }
}

/// A SQL statement with the values of its named parameters.
#[derive(Clone, Debug)]
pub struct Statement {
    pub sql: String,
    pub params: Vec<(String, ParamValue)>,
}

/// The mathematical value of a [`Statement`].
pub struct StatementView {
    pub sql: Seq<char>,
    pub params: Seq<(Seq<char>, ParamView)>,
}

impl DeepView for Statement {
    type V = StatementView;

    open spec fn deep_view(&self) -> StatementView {
        StatementView { sql: self.sql@, params: self.params.deep_view() }
    }
}

/// A builder for change stream queries.
///
/// The builder constructs the `SELECT ChangeRecord FROM READ_<stream>(...)` query over the
/// table-valued function of a change stream. `C` is the database client that the query runs on.
#[derive(Clone, Debug)]
pub struct ChangeStreamQueryBuilder<C> {
    client: C,
    change_stream_name: String,
    start_timestamp: Option<time::OffsetDateTime>,
    end_timestamp: Option<time::OffsetDateTime>,
    partition_token: Option<String>,
    heartbeat_milliseconds: i64,
}

/// The mathematical value of a [`ChangeStreamQueryBuilder`].
pub struct QueryView<C> {
    pub client: C,
    pub change_stream_name: Seq<char>,
    pub start_timestamp: Option<time::OffsetDateTime>,
    pub end_timestamp: Option<time::OffsetDateTime>,
    pub partition_token: Option<Seq<char>>,
    pub heartbeat_milliseconds: i64,
}

impl<C> View for ChangeStreamQueryBuilder<C> {
    type V = QueryView<C>;

    closed spec fn view(&self) -> QueryView<C> {
        QueryView {
            client: self.client,
            change_stream_name: self.change_stream_name@,
            start_timestamp: self.start_timestamp,
            end_timestamp: self.end_timestamp,
            partition_token: self.partition_token.deep_view(),
            heartbeat_milliseconds: self.heartbeat_milliseconds,
        }
    }
}

/// The argument list of the table-valued function: each argument is a named parameter.
pub open spec fn query_arguments() -> Seq<char> {
    "(start_timestamp => @start_timestamp, end_timestamp => @end_timestamp, partition_token => @partition_token, read_options => null, heartbeat_milliseconds => @heartbeat_milliseconds)"@
}

/// The SQL text that reads the change stream whose quoted name is `escaped_name`.
pub open spec fn query_sql(escaped_name: Seq<char>) -> Seq<char> {
    "SELECT ChangeRecord FROM READ_"@ + escaped_name + query_arguments()
}

/// Whether `part` occurs in `text`.
pub open spec fn occurs_in(part: Seq<char>, text: Seq<char>) -> bool {
    exists|i: int|
        0 <= i <= text.len() - part.len() && #[trigger] text.subrange(i, i + part.len()) == part
}

impl<C> QueryView<C> {
    /// The values of the statement's parameters, by name.
    pub open spec fn params(self) -> Seq<(Seq<char>, ParamView)> {
        seq![
            ("start_timestamp"@, ParamView::Timestamp(self.start_timestamp)),
            ("end_timestamp"@, ParamView::Timestamp(self.end_timestamp)),
            ("partition_token"@, ParamView::String(self.partition_token)),
            ("heartbeat_milliseconds"@, ParamView::Int64(self.heartbeat_milliseconds)),
        ]
    }

    /// The statement of this query, or the message of the error where its name is invalid.
    pub open spec fn statement(self) -> Result<StatementView, Seq<char>> {
        match escaped_identifier(self.change_stream_name) {
            Ok(escaped_name) => Ok(
                StatementView { sql: query_sql(escaped_name), params: self.params() },
            ),
            Err(message) => Err(message),
        }
    }
}

/// A statement to be run by `client` on a single-use read-only transaction.
#[derive(Debug)]
pub struct QueryRequest<C> {
    pub client: C,
    pub statement: Statement,
}

impl<C> ChangeStreamQueryBuilder<C> {
    /// A query of the change stream `change_stream_name` through `client`, with no timestamps, no
    /// partition token and the default heartbeat interval.
    pub fn new(client: C, change_stream_name: &str) -> (query: Self)
        ensures
            query@ == (QueryView {
                client,
                change_stream_name: change_stream_name@,
                start_timestamp: None,
                end_timestamp: None,
                partition_token: None,
                heartbeat_milliseconds: 10_000,
            }),
    {
        ChangeStreamQueryBuilder {
            client,
            change_stream_name: change_stream_name.to_owned(),
            start_timestamp: None,
            end_timestamp: None,
            partition_token: None,
            heartbeat_milliseconds: DEFAULT_HEARTBEAT_MILLISECONDS,
        }
    }

    /// Sets the start timestamp for the change stream query.
    ///
    /// Required. Must be within the change stream retention period and not in the future.
    pub fn with_start_timestamp(self, ts: time::OffsetDateTime) -> (query: Self)
        ensures
            query@ == (QueryView { start_timestamp: Some(ts), ..self@ }),
    {
        ChangeStreamQueryBuilder { start_timestamp: Some(ts), ..self }
    }

    /// Sets the end timestamp for the change stream query.
    ///
    /// If not set, the stream runs indefinitely until cancelled.
    pub fn with_end_timestamp(self, ts: time::OffsetDateTime) -> (query: Self)
        ensures
            query@ == (QueryView { end_timestamp: Some(ts), ..self@ }),
    {
        ChangeStreamQueryBuilder { end_timestamp: Some(ts), ..self }
    }

    /// Sets the partition token for reading a specific partition.
    ///
    /// If not set, Spanner begins reading from the initial set of partitions.
    pub fn with_partition_token(self, token: &str) -> (query: Self)
        ensures
            query@ == (QueryView { partition_token: Some(token@), ..self@ }),
    {
        ChangeStreamQueryBuilder { partition_token: Some(token.to_owned()), ..self }
    }

    /// Sets the heartbeat interval in milliseconds. Defaults to 10 000 (10 s).
    ///
    /// Spanner accepts intervals between 1 000 (1 s) and 300 000 (5 min).
    pub fn with_heartbeat_milliseconds(self, ms: i64) -> (query: Self)
        ensures
            query@ == (QueryView { heartbeat_milliseconds: ms, ..self@ }),
    {
        ChangeStreamQueryBuilder { heartbeat_milliseconds: ms, ..self }
    }

    /// Decides what executing the query sends: a statement of the form
    /// ```sql
    /// SELECT ChangeRecord FROM READ_`<stream>`(
    ///   start_timestamp => @start_timestamp,
    ///   end_timestamp   => @end_timestamp,
    ///   partition_token  => @partition_token,
    ///   read_options     => null,
    ///   heartbeat_milliseconds => @heartbeat_milliseconds
    /// )
    /// ```
    /// with the values of its parameters. Nothing is sent, and the error says why, where the name
    /// of the change stream is invalid.
    pub fn execute(self) -> (request: Result<QueryRequest<C>, InternalError>)
        ensures
            match request {
                Ok(request) => {
                    &&& request.client == self@.client
                    &&& self@.statement() == Ok::<StatementView, Seq<char>>(
                        request.statement.deep_view(),
                    )
                },
                Err(error) => self@.statement() == Err::<StatementView, Seq<char>>(
                    error.deep_view(),
                ),
            },
    {
        let escaped_name = match escape_identifier(self.change_stream_name.as_str()) {
            Ok(escaped_name) => escaped_name,
            Err(error) => return Err(error),
        };
        let mut sql = "SELECT ChangeRecord FROM READ_".to_owned();
        sql.append(escaped_name.as_str());
        sql.append(
            "(start_timestamp => @start_timestamp, end_timestamp => @end_timestamp, partition_token => @partition_token, read_options => null, heartbeat_milliseconds => @heartbeat_milliseconds)",
        );
        let mut params: Vec<(String, ParamValue)> = Vec::new();
        params.push(("start_timestamp".to_owned(), ParamValue::Timestamp(self.start_timestamp)));
        params.push(("end_timestamp".to_owned(), ParamValue::Timestamp(self.end_timestamp)));
        params.push(("partition_token".to_owned(), ParamValue::String(self.partition_token)));
        params.push(
            ("heartbeat_milliseconds".to_owned(), ParamValue::Int64(self.heartbeat_milliseconds)),
        );
        assert(params.deep_view() =~= self@.params());
        Ok(QueryRequest { client: self.client, statement: Statement { sql, params } })
    }
}

/// A part at position `i` of `tail` occurs in every text that ends in `tail`.
proof fn lemma_occurs_in_tail(head: Seq<char>, tail: Seq<char>, i: int, part: Seq<char>)
    requires
        0 <= i <= tail.len() - part.len(),
        tail.subrange(i, i + part.len()) == part,
    ensures
        occurs_in(part, head + tail),
{
    let text = head + tail;
    let j = head.len() + i;
    assert(text.subrange(j, j + part.len()) =~= tail.subrange(i, i + part.len()));
}

/// Every parameter of a query's statement has a placeholder in its SQL text: the parameter's name
/// behind an `@`.
pub proof fn law_every_parameter_has_a_placeholder<C>(query: QueryView<C>, i: int)
    requires
        query.statement() is Ok,
        0 <= i < query.params().len(),
    ensures
        occurs_in(seq!['@'] + query.params()[i].0, query.statement()->Ok_0.sql),
{
    let tail = query_arguments();
    reveal_strlit(
        "(start_timestamp => @start_timestamp, end_timestamp => @end_timestamp, partition_token => @partition_token, read_options => null, heartbeat_milliseconds => @heartbeat_milliseconds)",
    );
    reveal_strlit("start_timestamp");
    reveal_strlit("end_timestamp");
    reveal_strlit("partition_token");
    reveal_strlit("heartbeat_milliseconds");
    let head = "SELECT ChangeRecord FROM READ_"@ + escaped_identifier(
        query.change_stream_name,
    )->Ok_0;
    let at: int = if i == 0 {
        20
    } else if i == 1 {
        55
    } else if i == 2 {
        90
    } else {
        156
    };
    let placeholder = seq!['@'] + query.params()[i].0;
    assert(tail.subrange(at, at + placeholder.len()) =~= placeholder);
    lemma_occurs_in_tail(head, tail, at, placeholder);
}

/// The heartbeat interval of a query travels as text: the statement binds `heartbeat_milliseconds`
/// to a value whose text is the interval in decimal digits.
pub proof fn law_heartbeat_travels_as_text<C>(query: QueryView<C>)
    requires
        query.statement() is Ok,
    ensures
        exists|i: int|
            #![trigger query.statement()->Ok_0.params[i]]
            {
                &&& 0 <= i < query.statement()->Ok_0.params.len()
                &&& query.statement()->Ok_0.params[i].0 == "heartbeat_milliseconds"@
                &&& query.statement()->Ok_0.params[i].1.int64_text() == Some(
                    integer_text(query.heartbeat_milliseconds as int),
                )
            },
{
    assert(query.statement()->Ok_0.params[3].0 == "heartbeat_milliseconds"@);
}

/// No two parameters of a query's statement have the same name.
pub proof fn law_parameter_names_differ<C>(query: QueryView<C>, i: int, j: int)
    requires
        0 <= i < j < query.params().len(),
    ensures
        query.params()[i].0 != query.params()[j].0,
{
    reveal_strlit("start_timestamp");
    reveal_strlit("end_timestamp");
    reveal_strlit("partition_token");
    reveal_strlit("heartbeat_milliseconds");
    assert("start_timestamp"@.len() == 15 && "start_timestamp"@[0] == 's');
    assert("end_timestamp"@.len() == 13);
    assert("partition_token"@.len() == 15 && "partition_token"@[0] == 'p');
    assert("heartbeat_milliseconds"@.len() == 22);
}

/// The SQL text of a query reads from the table-valued function of its change stream: the text
/// holds `READ_` with the backtick-quoted name behind it.
pub proof fn law_sql_reads_the_quoted_stream<C>(query: QueryView<C>)
    requires
        is_valid_identifier(query.change_stream_name),
    ensures
        query.statement() is Ok,
        occurs_in(
            "READ_"@ + quoted(query.change_stream_name),
            query.statement()->Ok_0.sql,
        ),
{
    reveal_strlit("SELECT ChangeRecord FROM READ_");
    reveal_strlit("READ_");
    let sql = query.statement()->Ok_0.sql;
    let part = "READ_"@ + quoted(query.change_stream_name);
    assert("SELECT ChangeRecord FROM READ_"@.subrange(25, 30) =~= "READ_"@);
    assert(sql.subrange(25, (25 + part.len()) as int) =~= part);
}

/// The SQL text is a function of the stream's name alone: the timestamps, the partition token and
/// the heartbeat interval travel as parameters and never enter the text.
pub proof fn law_values_stay_out_of_the_sql<C, D>(a: QueryView<C>, b: QueryView<D>)
    requires
        a.change_stream_name == b.change_stream_name,
    ensures
        a.statement() is Ok <==> b.statement() is Ok,
        a.statement() is Ok ==> a.statement()->Ok_0.sql == b.statement()->Ok_0.sql,
        a.statement() is Err ==> a.statement()->Err_0 == b.statement()->Err_0,
{
}

/// Queries of different change streams have different SQL texts.
pub proof fn law_different_streams_differ_in_sql<C, D>(a: QueryView<C>, b: QueryView<D>)
    requires
        a.statement() is Ok,
        b.statement() is Ok,
        a.statement()->Ok_0.sql == b.statement()->Ok_0.sql,
    ensures
        a.change_stream_name == b.change_stream_name,
{
    let head = "SELECT ChangeRecord FROM READ_"@;
    let tail = query_arguments();
    let sql_a = head + quoted(a.change_stream_name) + tail;
    let sql_b = head + quoted(b.change_stream_name) + tail;
    assert(sql_a == sql_b);
    let n = quoted(a.change_stream_name).len() as int;
    assert(sql_a.subrange(head.len() as int, head.len() + n) =~= quoted(a.change_stream_name));
    assert(sql_b.subrange(head.len() as int, head.len() + n) =~= quoted(b.change_stream_name));
    law_escaping_is_injective(a.change_stream_name, b.change_stream_name);
}

/// Every parameter of a query's statement is bound to what its own setter gave, and to that alone:
/// `start_timestamp`, `end_timestamp` and `partition_token` to `NULL` exactly where nothing was
/// given, and `heartbeat_milliseconds` to the interval. There are no other parameters.
pub proof fn law_parameters_are_bound_to_their_setters<C>(query: QueryView<C>)
    requires
        query.statement() is Ok,
    ensures
        ({
            let params = query.statement()->Ok_0.params;
            &&& params.len() == 4
            &&& forall|i: int|
                #![trigger params[i]]
                0 <= i < params.len() ==> {
                    ||| params[i].0 == "start_timestamp"@
                    ||| params[i].0 == "end_timestamp"@
                    ||| params[i].0 == "partition_token"@
                    ||| params[i].0 == "heartbeat_milliseconds"@
                }
            &&& forall|i: int|
                #![trigger params[i]]
                0 <= i < params.len() ==> {
                    &&& params[i].0 == "start_timestamp"@ ==> params[i].1 == ParamView::Timestamp(
                        query.start_timestamp,
                    )
                    &&& params[i].0 == "end_timestamp"@ ==> params[i].1 == ParamView::Timestamp(
                        query.end_timestamp,
                    )
                    &&& params[i].0 == "partition_token"@ ==> params[i].1 == ParamView::String(
                        query.partition_token,
                    )
                    &&& params[i].0 == "heartbeat_milliseconds"@ ==> params[i].1
                        == ParamView::Int64(query.heartbeat_milliseconds)
                }
            &&& forall|i: int, j: int|
                0 <= i < j < params.len() ==> (#[trigger] params[i]).0 != (#[trigger] params[j]).0
        }),
{
    reveal_strlit("start_timestamp");
    reveal_strlit("end_timestamp");
    reveal_strlit("partition_token");
    reveal_strlit("heartbeat_milliseconds");
    assert("start_timestamp"@.len() == 15 && "start_timestamp"@[0] == 's');
    assert("end_timestamp"@.len() == 13);
    assert("partition_token"@.len() == 15 && "partition_token"@[0] == 'p');
    assert("heartbeat_milliseconds"@.len() == 22);
}

/// No parameter depends on another setter: two queries that agree on what one setter gave bind its
/// parameter alike, whatever the others gave.
pub proof fn law_setters_do_not_touch_other_parameters<C, D>(
    a: QueryView<C>,
    b: QueryView<D>,
    i: int,
    j: int,
)
    requires
        a.statement() is Ok,
        b.statement() is Ok,
        0 <= i < a.statement()->Ok_0.params.len(),
        0 <= j < b.statement()->Ok_0.params.len(),
        a.statement()->Ok_0.params[i].0 == b.statement()->Ok_0.params[j].0,
    ensures
        ({
            let (name, x) = a.statement()->Ok_0.params[i];
            let y = b.statement()->Ok_0.params[j].1;
            &&& name == "start_timestamp"@ ==> (x == y <==> a.start_timestamp == b.start_timestamp)
            &&& name == "end_timestamp"@ ==> (x == y <==> a.end_timestamp == b.end_timestamp)
            &&& name == "partition_token"@ ==> (x == y <==> a.partition_token == b.partition_token)
            &&& name == "heartbeat_milliseconds"@ ==> (x == y <==> a.heartbeat_milliseconds
                == b.heartbeat_milliseconds)
        }),
{
    law_parameters_are_bound_to_their_setters(a);
    law_parameters_are_bound_to_their_setters(b);
    let x = a.statement()->Ok_0.params[i];
    let y = b.statement()->Ok_0.params[j];
}

/// The SQL text of a query is the fixed text that calls the table-valued function `READ_` of its
/// change stream, whose name stands between backticks.
pub proof fn law_sql_is_fixed_but_for_the_name<C>(query: QueryView<C>)
    ensures
        query.statement() is Ok <==> escaped_identifier(query.change_stream_name) is Ok,
        query.statement() is Ok ==> query.statement()->Ok_0.sql == "SELECT ChangeRecord FROM READ_"@
            + seq!['`'] + query.change_stream_name + seq!['`']
            + "(start_timestamp => @start_timestamp, end_timestamp => @end_timestamp, partition_token => @partition_token, read_options => null, heartbeat_milliseconds => @heartbeat_milliseconds)"@,
        query.statement() is Err ==> query.statement()->Err_0 == escaped_identifier(
            query.change_stream_name,
        )->Err_0,
{
    if query.statement() is Ok {
        let name = query.change_stream_name;
        law_names_are_quoted_or_refused(name);
        let head = "SELECT ChangeRecord FROM READ_"@;
        assert(head + (seq!['`'] + name + seq!['`']) =~= head + seq!['`'] + name + seq!['`']);
    }
}

/// Only integers travel as text, and their text reads back as their value.
pub proof fn law_integer_parameters_travel_in_digits(value: ParamView)
    ensures
        match value {
            ParamView::Int64(n) => match value.int64_text() {
                None => false,
                Some(text) => {
                    &&& n >= 0 ==> is_decimal(text) && digits_value(text) == n
                    &&& n < 0 ==> {
                        &&& text.len() > 0 && text[0] == '-'
                        &&& is_decimal(text.drop_first())
                        &&& digits_value(text.drop_first()) == -n
                    }
                },
            },
            _ => value.int64_text() is None,
        },
{
    if value is Int64 {
        law_integers_read_back(value->Int64_0 as int);
        reveal_strlit("-");
    }
}

} // verus!
