//! The render pass as one operation that every node of a statement offers:
//! append the node's SQL text to a sink, under a render context.

use vstd::prelude::*;
use crate::context::Context;
use crate::context::RenderContext;
use crate::data_type::DataType;
use crate::data_type::check_data_type;
use crate::data_type::data_type_text;
use crate::data_type::data_type_wf;
use crate::data_type::write_data_type;
use crate::ddl::AlterTableOperation;
use crate::ddl::ColumnDef;
use crate::ddl::ColumnOption;
use crate::ddl::ColumnOptionDef;
use crate::ddl::ReferentialAction;
use crate::ddl::TableConstraint;
use crate::ddl::alter_table_operation_text;
use crate::ddl::alter_table_operation_wf;
use crate::ddl::check_alter_table_operation;
use crate::ddl::check_column_def;
use crate::ddl::check_column_option;
use crate::ddl::check_column_option_def;
use crate::ddl::check_table_constraint;
use crate::ddl::column_def_text;
use crate::ddl::column_def_wf;
use crate::ddl::column_option_def_text;
use crate::ddl::column_option_def_wf;
use crate::ddl::column_option_text;
use crate::ddl::column_option_wf;
use crate::ddl::referential_action_keyword;
use crate::ddl::referential_action_text;
use crate::ddl::table_constraint_text;
use crate::ddl::table_constraint_wf;
use crate::ddl::write_alter_table_operation;
use crate::ddl::write_column_def;
use crate::ddl::write_column_option;
use crate::ddl::write_column_option_def;
use crate::ddl::write_table_constraint;
use crate::expr::Expr;
use crate::expr::Function;
use crate::expr::FunctionArg;
use crate::expr::ListAgg;
use crate::expr::ListAggOnOverflow;
use crate::expr::WindowFrame;
use crate::expr::WindowFrameBound;
use crate::expr::WindowFrameUnits;
use crate::expr::WindowSpec;
use crate::expr::check_expr;
use crate::expr::check_function;
use crate::expr::check_function_arg;
use crate::expr::check_list_agg;
use crate::expr::check_list_agg_on_overflow;
use crate::expr::check_optional_expr;
use crate::expr::check_window_spec;
use crate::expr::expr_text;
use crate::expr::expr_wf;
use crate::expr::function_arg_text;
use crate::expr::function_arg_wf;
use crate::expr::function_text;
use crate::expr::function_wf;
use crate::expr::list_agg_on_overflow_text;
use crate::expr::list_agg_on_overflow_wf;
use crate::expr::list_agg_text;
use crate::expr::list_agg_wf;
use crate::expr::window_frame_bound_text;
use crate::expr::window_frame_text;
use crate::expr::window_frame_units_keyword;
use crate::expr::window_frame_units_text;
use crate::expr::window_spec_text;
use crate::expr::window_spec_wf;
use crate::expr::write_expr;
use crate::expr::write_function;
use crate::expr::write_function_arg;
use crate::expr::write_list_agg;
use crate::expr::write_list_agg_on_overflow;
use crate::expr::write_window_frame;
use crate::expr::write_window_frame_bound;
use crate::expr::write_window_spec;
use crate::ident::Ident;
use crate::ident::ObjectName;
use crate::ident::ident_text;
use crate::ident::object_name_text;
use crate::ident::write_ident;
use crate::ident::write_object_name;
use crate::operator::BinaryOperator;
use crate::operator::UnaryOperator;
use crate::operator::binary_operator_symbol;
use crate::operator::binary_operator_text;
use crate::operator::unary_operator_symbol;
use crate::operator::unary_operator_text;
use crate::query::Cte;
use crate::query::Fetch;
use crate::query::Join;
use crate::query::LateralView;
use crate::query::Offset;
use crate::query::OrderByExpr;
use crate::query::Query;
use crate::query::Select;
use crate::query::SelectItem;
use crate::query::SetExpr;
use crate::query::SetOperator;
use crate::query::TableAlias;
use crate::query::TableFactor;
use crate::query::TableWithJoins;
use crate::query::Top;
use crate::query::Values;
use crate::query::With;
use crate::query::check_cte;
use crate::query::check_join;
use crate::query::check_lateral_view;
use crate::query::check_order_by_expr;
use crate::query::check_query;
use crate::query::check_select;
use crate::query::check_select_item;
use crate::query::check_set_expr;
use crate::query::check_table_alias;
use crate::query::check_table_factor;
use crate::query::check_table_with_joins;
use crate::query::check_values;
use crate::query::check_with;
use crate::query::cte_text;
use crate::query::cte_wf;
use crate::query::fetch_text;
use crate::query::fetch_wf;
use crate::query::join_text;
use crate::query::join_wf;
use crate::query::lateral_view_text;
use crate::query::lateral_view_wf;
use crate::query::offset_text;
use crate::query::offset_wf;
use crate::query::order_by_expr_text;
use crate::query::order_by_expr_wf;
use crate::query::query_text;
use crate::query::query_wf;
use crate::query::select_item_text;
use crate::query::select_item_wf;
use crate::query::select_text;
use crate::query::select_wf;
use crate::query::set_expr_text;
use crate::query::set_expr_wf;
use crate::query::set_operator_keyword;
use crate::query::set_operator_text;
use crate::query::table_alias_text;
use crate::query::table_alias_wf;
use crate::query::table_factor_text;
use crate::query::table_factor_wf;
use crate::query::table_with_joins_text;
use crate::query::table_with_joins_wf;
use crate::query::top_text;
use crate::query::top_wf;
use crate::query::values_text;
use crate::query::values_wf;
use crate::query::with_text;
use crate::query::with_wf;
use crate::query::write_cte;
use crate::query::write_fetch;
use crate::query::write_join;
use crate::query::write_lateral_view;
use crate::query::write_offset;
use crate::query::write_order_by_expr;
use crate::query::write_query;
use crate::query::write_select;
use crate::query::write_select_item;
use crate::query::write_set_expr;
use crate::query::write_table_alias;
use crate::query::write_table_factor;
use crate::query::write_table_with_joins;
use crate::query::write_top;
use crate::query::write_values;
use crate::query::write_with;
use crate::statement::AddDropSync;
use crate::statement::Assignment;
use crate::statement::FileFormat;
use crate::statement::ObjectType;
use crate::statement::SetVariableValue;
use crate::statement::ShowStatementFilter;
use crate::statement::SqlOption;
use crate::statement::SqliteOnConflict;
use crate::statement::Statement;
use crate::statement::TransactionAccessMode;
use crate::statement::TransactionIsolationLevel;
use crate::statement::TransactionMode;
use crate::statement::add_drop_sync_keyword;
use crate::statement::add_drop_sync_text;
use crate::statement::assignment_text;
use crate::statement::assignment_wf;
use crate::statement::check_assignment;
use crate::statement::check_set_variable_value;
use crate::statement::check_show_statement_filter;
use crate::statement::check_sql_option;
use crate::statement::check_statement;
use crate::statement::file_format_keyword;
use crate::statement::file_format_text;
use crate::statement::object_type_keyword;
use crate::statement::object_type_text;
use crate::statement::set_variable_value_text;
use crate::statement::set_variable_value_wf;
use crate::statement::show_statement_filter_text;
use crate::statement::show_statement_filter_wf;
use crate::statement::sql_option_text;
use crate::statement::sql_option_wf;
use crate::statement::sqlite_on_conflict_keyword;
use crate::statement::sqlite_on_conflict_text;
use crate::statement::statement_text;
use crate::statement::statement_wf;
use crate::statement::transaction_access_mode_keyword;
use crate::statement::transaction_access_mode_text;
use crate::statement::transaction_isolation_level_keyword;
use crate::statement::transaction_isolation_level_text;
use crate::statement::transaction_mode_text;
use crate::statement::write_assignment;
use crate::statement::write_set_variable_value;
use crate::statement::write_show_statement_filter;
use crate::statement::write_sql_option;
use crate::statement::write_statement;
use crate::statement::write_transaction_mode;
use crate::text::appended;
use crate::text::lemma_separated_none;
use crate::text::lemma_separated_step;
use crate::text::put;
use crate::text::separated;
use crate::tokenizer::Token;
use crate::tokenizer::Whitespace;
use crate::tokenizer::Word;
use crate::tokenizer::check_token;
use crate::tokenizer::token_text;
use crate::tokenizer::token_wf;
use crate::tokenizer::whitespace_text;
use crate::tokenizer::word_text;
use crate::tokenizer::write_token;
use crate::tokenizer::write_whitespace;
use crate::tokenizer::write_word;
use crate::value::DateTimeField;
use crate::value::Value;
use crate::value::check_value;
use crate::value::date_time_field_keyword;
use crate::value::date_time_field_text;
use crate::value::value_text;
use crate::value::value_wf;
use crate::value::write_value;

verus! {

broadcast use crate::text::group_sink;

/// The sink refused a write. A `String` never does.
#[derive(Debug, Clone, Copy, PartialEq, Eq)]
pub struct WriteError;

/// What a render operation returns.
pub type SRWResult = Result<(), WriteError>;

/// A node that has an SQL text.
pub trait SQLReWrite {
    /// Whether the node meets the structural invariants that rendering
    /// relies on.
    spec fn renderable(&self) -> bool;

    /// The SQL text of the node under the context `ctx`.
    spec fn rendered(&self, ctx: Context) -> Seq<char>;

    /// Tests whether the node meets the structural invariants that rendering
    /// relies on.
    fn can_rewrite(&self) -> (r: bool)
        ensures
            r == self.renderable(),
    ;

    /// Appends the node's SQL text to `f`. The context reaches every
    /// identifier of the node unchanged; nothing else of `f` changes, and
    /// the operation cannot fail on a `String`.
    fn rewrite(&self, f: &mut String, ctx: &RenderContext) -> (r: SRWResult)
        requires
            self.renderable(),
        ensures
            r is Ok,
            final(f)@ == old(f)@ + self.rendered(ctx@),
    ;
}

/// The items of a slice, to be rendered with a separator between them.
pub struct DisplaySeparated<'a, T: SQLReWrite> {
    slice: &'a [T],
    sep: &'static str,
}

impl<'a, T: SQLReWrite> DisplaySeparated<'a, T> {
    /// The items to render.
    pub closed spec fn items(&self) -> Seq<T> {
        self.slice@
    }

    /// The separator that stands between two items.
    pub closed spec fn separator(&self) -> Seq<char> {
        self.sep@
    }
}

/// The SQL texts of the items of `s`, in order.
pub open spec fn rendered_items<T: SQLReWrite>(s: Seq<T>, ctx: Context) -> Seq<Seq<char>> {
    Seq::new(s.len(), |i: int| s[i].rendered(ctx))
}

impl<'a, T: SQLReWrite> SQLReWrite for DisplaySeparated<'a, T> {
    open spec fn renderable(&self) -> bool {
        forall|i: int| 0 <= i < self.items().len() ==> (#[trigger] self.items()[i]).renderable()
    }

    open spec fn rendered(&self, ctx: Context) -> Seq<char> {
        separated(rendered_items(self.items(), ctx), self.separator())
    }

    fn can_rewrite(&self) -> (r: bool) {
        let mut i: usize = 0;
        while i < self.slice.len()
            invariant
                0 <= i <= self.slice.len(),
                forall|j: int| 0 <= j < i ==> (#[trigger] self.items()[j]).renderable(),
            decreases self.slice.len() - i,
        {
            if !self.slice[i].can_rewrite() {
                assert(!self.items()[i as int].renderable());
                return false;
            }
            i = i + 1;
        }
        true
    }

    fn rewrite(&self, f: &mut String, ctx: &RenderContext) -> (r: SRWResult) {
        let ghost parts = rendered_items(self.items(), ctx@);
        proof {
            lemma_separated_none(parts, self.sep@);
        }
        let mut i: usize = 0;
        while i < self.slice.len()
            invariant
                0 <= i <= self.slice.len(),
                self.renderable(),
                parts == rendered_items(self.items(), ctx@),
                f@ == appended(old(f)@, separated(parts.take(i as int), self.sep@)),
            decreases self.slice.len() - i,
        {
            if i > 0 {
                put(f, self.sep);
            }
            proof {
                lemma_separated_step(parts, self.sep@, i as int);
            }
            match self.slice[i].rewrite(f, ctx) {
                Ok(()) => {},
                Err(e) => {
                    return Err(e);
                },
            }
            i = i + 1;
        }
        proof {
            lemma_separated_none(parts, self.sep@);
        }
        Ok(())
    }
}

/// The items of `slice`, to be rendered with `sep` between them.
pub fn display_separated<'a, T: SQLReWrite>(slice: &'a [T], sep: &'static str) -> (r:
    DisplaySeparated<'a, T>)
    ensures
        r.items() == slice@,
        r.separator() == sep@,
{
    DisplaySeparated { slice, sep }
}

/// The items of `slice`, to be rendered with `, ` between them.
pub fn display_comma_separated<T: SQLReWrite>(slice: &[T]) -> (r: DisplaySeparated<'_, T>)
    ensures
        r.items() == slice@,
        r.separator() == ", "@,
{
    DisplaySeparated { slice, sep: ", " }
}

impl SQLReWrite for String {
    open spec fn renderable(&self) -> bool {
        true
    }

    /// A string is its own text, whatever the context.
    open spec fn rendered(&self, ctx: Context) -> Seq<char> {
        self@
    }

    fn can_rewrite(&self) -> (r: bool) {
        true
    }

    fn rewrite(&self, f: &mut String, ctx: &RenderContext) -> (r: SRWResult) {
        put(f, self.as_str());
        Ok(())
    }
}

impl SQLReWrite for Ident {
    open spec fn renderable(&self) -> bool {
        self.well_formed()
    }

    fn can_rewrite(&self) -> (r: bool) {
        self.is_well_formed()
    }

    open spec fn rendered(&self, ctx: Context) -> Seq<char> {
        ident_text(*self, ctx)
    }

    fn rewrite(&self, f: &mut String, ctx: &RenderContext) -> (r: SRWResult) {
        write_ident(self, f, ctx);
        Ok(())
    }
}

impl SQLReWrite for ObjectName {
    open spec fn renderable(&self) -> bool {
        self.well_formed()
    }

    fn can_rewrite(&self) -> (r: bool) {
        self.is_well_formed()
    }

    open spec fn rendered(&self, ctx: Context) -> Seq<char> {
        object_name_text(*self, ctx)
    }

    fn rewrite(&self, f: &mut String, ctx: &RenderContext) -> (r: SRWResult) {
        write_object_name(self, f, ctx);
        Ok(())
    }
}

impl SQLReWrite for DataType {
    open spec fn renderable(&self) -> bool {
        data_type_wf(*self)
    }

    fn can_rewrite(&self) -> (r: bool) {
        check_data_type(self)
    }

    open spec fn rendered(&self, ctx: Context) -> Seq<char> {
        data_type_text(*self, ctx)
    }

    fn rewrite(&self, f: &mut String, ctx: &RenderContext) -> (r: SRWResult) {
        write_data_type(self, f, ctx);
        Ok(())
    }
}

impl SQLReWrite for UnaryOperator {
    open spec fn renderable(&self) -> bool {
        true
    }

    fn can_rewrite(&self) -> (r: bool) {
        true
    }

    open spec fn rendered(&self, ctx: Context) -> Seq<char> {
        unary_operator_text(*self)
    }

    fn rewrite(&self, f: &mut String, ctx: &RenderContext) -> (r: SRWResult) {
        put(f, unary_operator_symbol(self));
        Ok(())
    }
}

impl SQLReWrite for BinaryOperator {
    open spec fn renderable(&self) -> bool {
        true
    }

    fn can_rewrite(&self) -> (r: bool) {
        true
    }

    open spec fn rendered(&self, ctx: Context) -> Seq<char> {
        binary_operator_text(*self)
    }

    fn rewrite(&self, f: &mut String, ctx: &RenderContext) -> (r: SRWResult) {
        put(f, binary_operator_symbol(self));
        Ok(())
    }
}

impl SQLReWrite for Value {
    open spec fn renderable(&self) -> bool {
        value_wf(*self)
    }

    fn can_rewrite(&self) -> (r: bool) {
        check_value(self)
    }

    open spec fn rendered(&self, ctx: Context) -> Seq<char> {
        value_text(*self)
    }

    fn rewrite(&self, f: &mut String, ctx: &RenderContext) -> (r: SRWResult) {
        write_value(self, f);
        Ok(())
    }
}

impl SQLReWrite for DateTimeField {
    open spec fn renderable(&self) -> bool {
        true
    }

    fn can_rewrite(&self) -> (r: bool) {
        true
    }

    open spec fn rendered(&self, ctx: Context) -> Seq<char> {
        date_time_field_text(*self)
    }

    fn rewrite(&self, f: &mut String, ctx: &RenderContext) -> (r: SRWResult) {
        put(f, date_time_field_keyword(self));
        Ok(())
    }
}

impl SQLReWrite for Token {
    open spec fn renderable(&self) -> bool {
        token_wf(*self)
    }

    fn can_rewrite(&self) -> (r: bool) {
        check_token(self)
    }

    open spec fn rendered(&self, ctx: Context) -> Seq<char> {
        token_text(*self)
    }

    fn rewrite(&self, f: &mut String, ctx: &RenderContext) -> (r: SRWResult) {
        write_token(self, f);
        Ok(())
    }
}

impl SQLReWrite for Word {
    open spec fn renderable(&self) -> bool {
        self.well_formed()
    }

    fn can_rewrite(&self) -> (r: bool) {
        self.is_well_formed()
    }

    open spec fn rendered(&self, ctx: Context) -> Seq<char> {
        word_text(*self)
    }

    fn rewrite(&self, f: &mut String, ctx: &RenderContext) -> (r: SRWResult) {
        write_word(self, f);
        Ok(())
    }
}

impl SQLReWrite for Whitespace {
    open spec fn renderable(&self) -> bool {
        true
    }

    fn can_rewrite(&self) -> (r: bool) {
        true
    }

    open spec fn rendered(&self, ctx: Context) -> Seq<char> {
        whitespace_text(*self)
    }

    fn rewrite(&self, f: &mut String, ctx: &RenderContext) -> (r: SRWResult) {
        write_whitespace(self, f);
        Ok(())
    }
}

impl SQLReWrite for Expr {
    open spec fn renderable(&self) -> bool {
        expr_wf(*self)
    }

    fn can_rewrite(&self) -> (r: bool) {
        check_expr(self)
    }

    open spec fn rendered(&self, ctx: Context) -> Seq<char> {
        expr_text(*self, ctx)
    }

    fn rewrite(&self, f: &mut String, ctx: &RenderContext) -> (r: SRWResult) {
        write_expr(self, f, ctx);
        Ok(())
    }
}

impl SQLReWrite for WindowSpec {
    open spec fn renderable(&self) -> bool {
        window_spec_wf(*self)
    }

    fn can_rewrite(&self) -> (r: bool) {
        check_window_spec(self)
    }

    open spec fn rendered(&self, ctx: Context) -> Seq<char> {
        window_spec_text(*self, ctx)
    }

    fn rewrite(&self, f: &mut String, ctx: &RenderContext) -> (r: SRWResult) {
        write_window_spec(self, f, ctx);
        Ok(())
    }
}

impl SQLReWrite for WindowFrame {
    open spec fn renderable(&self) -> bool {
        true
    }

    fn can_rewrite(&self) -> (r: bool) {
        true
    }

    open spec fn rendered(&self, ctx: Context) -> Seq<char> {
        window_frame_text(*self)
    }

    fn rewrite(&self, f: &mut String, ctx: &RenderContext) -> (r: SRWResult) {
        write_window_frame(self, f);
        Ok(())
    }
}

impl SQLReWrite for WindowFrameUnits {
    open spec fn renderable(&self) -> bool {
        true
    }

    fn can_rewrite(&self) -> (r: bool) {
        true
    }

    open spec fn rendered(&self, ctx: Context) -> Seq<char> {
        window_frame_units_text(*self)
    }

    fn rewrite(&self, f: &mut String, ctx: &RenderContext) -> (r: SRWResult) {
        put(f, window_frame_units_keyword(self));
        Ok(())
    }
}

impl SQLReWrite for WindowFrameBound {
    open spec fn renderable(&self) -> bool {
        true
    }

    fn can_rewrite(&self) -> (r: bool) {
        true
    }

    open spec fn rendered(&self, ctx: Context) -> Seq<char> {
        window_frame_bound_text(*self)
    }

    fn rewrite(&self, f: &mut String, ctx: &RenderContext) -> (r: SRWResult) {
        write_window_frame_bound(self, f);
        Ok(())
    }
}

impl SQLReWrite for FunctionArg {
    open spec fn renderable(&self) -> bool {
        function_arg_wf(*self)
    }

    fn can_rewrite(&self) -> (r: bool) {
        check_function_arg(self)
    }

    open spec fn rendered(&self, ctx: Context) -> Seq<char> {
        function_arg_text(*self, ctx)
    }

    fn rewrite(&self, f: &mut String, ctx: &RenderContext) -> (r: SRWResult) {
        write_function_arg(self, f, ctx);
        Ok(())
    }
}

impl SQLReWrite for Function {
    open spec fn renderable(&self) -> bool {
        function_wf(*self)
    }

    fn can_rewrite(&self) -> (r: bool) {
        check_function(self)
    }

    open spec fn rendered(&self, ctx: Context) -> Seq<char> {
        function_text(*self, ctx)
    }

    fn rewrite(&self, f: &mut String, ctx: &RenderContext) -> (r: SRWResult) {
        write_function(self, f, ctx);
        Ok(())
    }
}

impl SQLReWrite for ListAgg {
    open spec fn renderable(&self) -> bool {
        list_agg_wf(*self)
    }

    fn can_rewrite(&self) -> (r: bool) {
        check_list_agg(self)
    }

    open spec fn rendered(&self, ctx: Context) -> Seq<char> {
        list_agg_text(*self, ctx)
    }

    fn rewrite(&self, f: &mut String, ctx: &RenderContext) -> (r: SRWResult) {
        write_list_agg(self, f, ctx);
        Ok(())
    }
}

impl SQLReWrite for ListAggOnOverflow {
    open spec fn renderable(&self) -> bool {
        list_agg_on_overflow_wf(*self)
    }

    fn can_rewrite(&self) -> (r: bool) {
        check_list_agg_on_overflow(self)
    }

    open spec fn rendered(&self, ctx: Context) -> Seq<char> {
        list_agg_on_overflow_text(*self, ctx)
    }

    fn rewrite(&self, f: &mut String, ctx: &RenderContext) -> (r: SRWResult) {
        write_list_agg_on_overflow(self, f, ctx);
        Ok(())
    }
}

impl SQLReWrite for Query {
    open spec fn renderable(&self) -> bool {
        query_wf(*self)
    }

    fn can_rewrite(&self) -> (r: bool) {
        check_query(self)
    }

    open spec fn rendered(&self, ctx: Context) -> Seq<char> {
        query_text(*self, ctx)
    }

    fn rewrite(&self, f: &mut String, ctx: &RenderContext) -> (r: SRWResult) {
        write_query(self, f, ctx);
        Ok(())
    }
}

impl SQLReWrite for SetExpr {
    open spec fn renderable(&self) -> bool {
        set_expr_wf(*self)
    }

    fn can_rewrite(&self) -> (r: bool) {
        check_set_expr(self)
    }

    open spec fn rendered(&self, ctx: Context) -> Seq<char> {
        set_expr_text(*self, ctx)
    }

    fn rewrite(&self, f: &mut String, ctx: &RenderContext) -> (r: SRWResult) {
        write_set_expr(self, f, ctx);
        Ok(())
    }
}

impl SQLReWrite for SetOperator {
    open spec fn renderable(&self) -> bool {
        true
    }

    fn can_rewrite(&self) -> (r: bool) {
        true
    }

    open spec fn rendered(&self, ctx: Context) -> Seq<char> {
        set_operator_text(*self)
    }

    fn rewrite(&self, f: &mut String, ctx: &RenderContext) -> (r: SRWResult) {
        put(f, set_operator_keyword(self));
        Ok(())
    }
}

impl SQLReWrite for Select {
    open spec fn renderable(&self) -> bool {
        select_wf(*self)
    }

    fn can_rewrite(&self) -> (r: bool) {
        check_select(self)
    }

    open spec fn rendered(&self, ctx: Context) -> Seq<char> {
        select_text(*self, ctx)
    }

    fn rewrite(&self, f: &mut String, ctx: &RenderContext) -> (r: SRWResult) {
        write_select(self, f, ctx);
        Ok(())
    }
}

impl SQLReWrite for LateralView {
    open spec fn renderable(&self) -> bool {
        lateral_view_wf(*self)
    }

    fn can_rewrite(&self) -> (r: bool) {
        check_lateral_view(self)
    }

    open spec fn rendered(&self, ctx: Context) -> Seq<char> {
        lateral_view_text(*self, ctx)
    }

    fn rewrite(&self, f: &mut String, ctx: &RenderContext) -> (r: SRWResult) {
        write_lateral_view(self, f, ctx);
        Ok(())
    }
}

impl SQLReWrite for With {
    open spec fn renderable(&self) -> bool {
        with_wf(*self)
    }

    fn can_rewrite(&self) -> (r: bool) {
        check_with(self)
    }

    open spec fn rendered(&self, ctx: Context) -> Seq<char> {
        with_text(*self, ctx)
    }

    fn rewrite(&self, f: &mut String, ctx: &RenderContext) -> (r: SRWResult) {
        write_with(self, f, ctx);
        Ok(())
    }
}

impl SQLReWrite for Cte {
    open spec fn renderable(&self) -> bool {
        cte_wf(*self)
    }

    fn can_rewrite(&self) -> (r: bool) {
        check_cte(self)
    }

    open spec fn rendered(&self, ctx: Context) -> Seq<char> {
        cte_text(*self, ctx)
    }

    fn rewrite(&self, f: &mut String, ctx: &RenderContext) -> (r: SRWResult) {
        write_cte(self, f, ctx);
        Ok(())
    }
}

impl SQLReWrite for SelectItem {
    open spec fn renderable(&self) -> bool {
        select_item_wf(*self)
    }

    fn can_rewrite(&self) -> (r: bool) {
        check_select_item(self)
    }

    open spec fn rendered(&self, ctx: Context) -> Seq<char> {
        select_item_text(*self, ctx)
    }

    fn rewrite(&self, f: &mut String, ctx: &RenderContext) -> (r: SRWResult) {
        write_select_item(self, f, ctx);
        Ok(())
    }
}

impl SQLReWrite for TableWithJoins {
    open spec fn renderable(&self) -> bool {
        table_with_joins_wf(*self)
    }

    fn can_rewrite(&self) -> (r: bool) {
        check_table_with_joins(self)
    }

    open spec fn rendered(&self, ctx: Context) -> Seq<char> {
        table_with_joins_text(*self, ctx)
    }

    fn rewrite(&self, f: &mut String, ctx: &RenderContext) -> (r: SRWResult) {
        write_table_with_joins(self, f, ctx);
        Ok(())
    }
}

impl SQLReWrite for TableFactor {
    open spec fn renderable(&self) -> bool {
        table_factor_wf(*self)
    }

    fn can_rewrite(&self) -> (r: bool) {
        check_table_factor(self)
    }

    open spec fn rendered(&self, ctx: Context) -> Seq<char> {
        table_factor_text(*self, ctx)
    }

    fn rewrite(&self, f: &mut String, ctx: &RenderContext) -> (r: SRWResult) {
        write_table_factor(self, f, ctx);
        Ok(())
    }
}

impl SQLReWrite for TableAlias {
    open spec fn renderable(&self) -> bool {
        table_alias_wf(*self)
    }

    fn can_rewrite(&self) -> (r: bool) {
        check_table_alias(self)
    }

    open spec fn rendered(&self, ctx: Context) -> Seq<char> {
        table_alias_text(*self, ctx)
    }

    fn rewrite(&self, f: &mut String, ctx: &RenderContext) -> (r: SRWResult) {
        write_table_alias(self, f, ctx);
        Ok(())
    }
}

impl SQLReWrite for Join {
    open spec fn renderable(&self) -> bool {
        join_wf(*self)
    }

    fn can_rewrite(&self) -> (r: bool) {
        check_join(self)
    }

    open spec fn rendered(&self, ctx: Context) -> Seq<char> {
        join_text(*self, ctx)
    }

    fn rewrite(&self, f: &mut String, ctx: &RenderContext) -> (r: SRWResult) {
        write_join(self, f, ctx);
        Ok(())
    }
}

impl SQLReWrite for OrderByExpr {
    open spec fn renderable(&self) -> bool {
        order_by_expr_wf(*self)
    }

    fn can_rewrite(&self) -> (r: bool) {
        check_order_by_expr(self)
    }

    open spec fn rendered(&self, ctx: Context) -> Seq<char> {
        order_by_expr_text(*self, ctx)
    }

    fn rewrite(&self, f: &mut String, ctx: &RenderContext) -> (r: SRWResult) {
        write_order_by_expr(self, f, ctx);
        Ok(())
    }
}

impl SQLReWrite for Offset {
    open spec fn renderable(&self) -> bool {
        offset_wf(*self)
    }

    fn can_rewrite(&self) -> (r: bool) {
        check_expr(&self.value)
    }

    open spec fn rendered(&self, ctx: Context) -> Seq<char> {
        offset_text(*self, ctx)
    }

    fn rewrite(&self, f: &mut String, ctx: &RenderContext) -> (r: SRWResult) {
        write_offset(self, f, ctx);
        Ok(())
    }
}

impl SQLReWrite for Fetch {
    open spec fn renderable(&self) -> bool {
        fetch_wf(*self)
    }

    fn can_rewrite(&self) -> (r: bool) {
        check_optional_expr(&self.quantity)
    }

    open spec fn rendered(&self, ctx: Context) -> Seq<char> {
        fetch_text(*self, ctx)
    }

    fn rewrite(&self, f: &mut String, ctx: &RenderContext) -> (r: SRWResult) {
        write_fetch(self, f, ctx);
        Ok(())
    }
}

impl SQLReWrite for Top {
    open spec fn renderable(&self) -> bool {
        top_wf(*self)
    }

    fn can_rewrite(&self) -> (r: bool) {
        check_optional_expr(&self.quantity)
    }

    open spec fn rendered(&self, ctx: Context) -> Seq<char> {
        top_text(*self, ctx)
    }

    fn rewrite(&self, f: &mut String, ctx: &RenderContext) -> (r: SRWResult) {
        write_top(self, f, ctx);
        Ok(())
    }
}

impl SQLReWrite for Values {
    open spec fn renderable(&self) -> bool {
        values_wf(*self)
    }

    fn can_rewrite(&self) -> (r: bool) {
        check_values(self)
    }

    open spec fn rendered(&self, ctx: Context) -> Seq<char> {
        values_text(*self, ctx)
    }

    fn rewrite(&self, f: &mut String, ctx: &RenderContext) -> (r: SRWResult) {
        write_values(self, f, ctx);
        Ok(())
    }
}

impl SQLReWrite for AlterTableOperation {
    open spec fn renderable(&self) -> bool {
        alter_table_operation_wf(*self)
    }

    fn can_rewrite(&self) -> (r: bool) {
        check_alter_table_operation(self)
    }

    open spec fn rendered(&self, ctx: Context) -> Seq<char> {
        alter_table_operation_text(*self, ctx)
    }

    fn rewrite(&self, f: &mut String, ctx: &RenderContext) -> (r: SRWResult) {
        write_alter_table_operation(self, f, ctx);
        Ok(())
    }
}

impl SQLReWrite for TableConstraint {
    open spec fn renderable(&self) -> bool {
        table_constraint_wf(*self)
    }

    fn can_rewrite(&self) -> (r: bool) {
        check_table_constraint(self)
    }

    open spec fn rendered(&self, ctx: Context) -> Seq<char> {
        table_constraint_text(*self, ctx)
    }

    fn rewrite(&self, f: &mut String, ctx: &RenderContext) -> (r: SRWResult) {
        write_table_constraint(self, f, ctx);
        Ok(())
    }
}

impl SQLReWrite for ColumnDef {
    open spec fn renderable(&self) -> bool {
        column_def_wf(*self)
    }

    fn can_rewrite(&self) -> (r: bool) {
        check_column_def(self)
    }

    open spec fn rendered(&self, ctx: Context) -> Seq<char> {
        column_def_text(*self, ctx)
    }

    fn rewrite(&self, f: &mut String, ctx: &RenderContext) -> (r: SRWResult) {
        write_column_def(self, f, ctx);
        Ok(())
    }
}

impl SQLReWrite for ColumnOptionDef {
    open spec fn renderable(&self) -> bool {
        column_option_def_wf(*self)
    }

    fn can_rewrite(&self) -> (r: bool) {
        check_column_option_def(self)
    }

    open spec fn rendered(&self, ctx: Context) -> Seq<char> {
        column_option_def_text(*self, ctx)
    }

    fn rewrite(&self, f: &mut String, ctx: &RenderContext) -> (r: SRWResult) {
        write_column_option_def(self, f, ctx);
        Ok(())
    }
}

impl SQLReWrite for ColumnOption {
    open spec fn renderable(&self) -> bool {
        column_option_wf(*self)
    }

    fn can_rewrite(&self) -> (r: bool) {
        check_column_option(self)
    }

    open spec fn rendered(&self, ctx: Context) -> Seq<char> {
        column_option_text(*self, ctx)
    }

    fn rewrite(&self, f: &mut String, ctx: &RenderContext) -> (r: SRWResult) {
        write_column_option(self, f, ctx);
        Ok(())
    }
}

impl SQLReWrite for ReferentialAction {
    open spec fn renderable(&self) -> bool {
        true
    }

    fn can_rewrite(&self) -> (r: bool) {
        true
    }

    open spec fn rendered(&self, ctx: Context) -> Seq<char> {
        referential_action_text(*self)
    }

    fn rewrite(&self, f: &mut String, ctx: &RenderContext) -> (r: SRWResult) {
        put(f, referential_action_keyword(self));
        Ok(())
    }
}

impl SQLReWrite for Statement {
    open spec fn renderable(&self) -> bool {
        statement_wf(*self)
    }

    fn can_rewrite(&self) -> (r: bool) {
        check_statement(self)
    }

    open spec fn rendered(&self, ctx: Context) -> Seq<char> {
        statement_text(*self, ctx)
    }

    fn rewrite(&self, f: &mut String, ctx: &RenderContext) -> (r: SRWResult) {
        write_statement(self, f, ctx);
        Ok(())
    }
}

impl SQLReWrite for AddDropSync {
    open spec fn renderable(&self) -> bool {
        true
    }

    fn can_rewrite(&self) -> (r: bool) {
        true
    }

    open spec fn rendered(&self, ctx: Context) -> Seq<char> {
        add_drop_sync_text(*self)
    }

    fn rewrite(&self, f: &mut String, ctx: &RenderContext) -> (r: SRWResult) {
        put(f, add_drop_sync_keyword(self));
        Ok(())
    }
}

impl SQLReWrite for Assignment {
    open spec fn renderable(&self) -> bool {
        assignment_wf(*self)
    }

    fn can_rewrite(&self) -> (r: bool) {
        check_assignment(self)
    }

    open spec fn rendered(&self, ctx: Context) -> Seq<char> {
        assignment_text(*self, ctx)
    }

    fn rewrite(&self, f: &mut String, ctx: &RenderContext) -> (r: SRWResult) {
        write_assignment(self, f, ctx);
        Ok(())
    }
}

impl SQLReWrite for FileFormat {
    open spec fn renderable(&self) -> bool {
        true
    }

    fn can_rewrite(&self) -> (r: bool) {
        true
    }

    open spec fn rendered(&self, ctx: Context) -> Seq<char> {
        file_format_text(*self)
    }

    fn rewrite(&self, f: &mut String, ctx: &RenderContext) -> (r: SRWResult) {
        put(f, file_format_keyword(self));
        Ok(())
    }
}

impl SQLReWrite for ObjectType {
    open spec fn renderable(&self) -> bool {
        true
    }

    fn can_rewrite(&self) -> (r: bool) {
        true
    }

    open spec fn rendered(&self, ctx: Context) -> Seq<char> {
        object_type_text(*self)
    }

    fn rewrite(&self, f: &mut String, ctx: &RenderContext) -> (r: SRWResult) {
        put(f, object_type_keyword(self));
        Ok(())
    }
}

impl SQLReWrite for SqlOption {
    open spec fn renderable(&self) -> bool {
        sql_option_wf(*self)
    }

    fn can_rewrite(&self) -> (r: bool) {
        check_sql_option(self)
    }

    open spec fn rendered(&self, ctx: Context) -> Seq<char> {
        sql_option_text(*self, ctx)
    }

    fn rewrite(&self, f: &mut String, ctx: &RenderContext) -> (r: SRWResult) {
        write_sql_option(self, f, ctx);
        Ok(())
    }
}

impl SQLReWrite for TransactionMode {
    open spec fn renderable(&self) -> bool {
        true
    }

    fn can_rewrite(&self) -> (r: bool) {
        true
    }

    open spec fn rendered(&self, ctx: Context) -> Seq<char> {
        transaction_mode_text(*self)
    }

    fn rewrite(&self, f: &mut String, ctx: &RenderContext) -> (r: SRWResult) {
        write_transaction_mode(self, f);
        Ok(())
    }
}

impl SQLReWrite for TransactionAccessMode {
    open spec fn renderable(&self) -> bool {
        true
    }

    fn can_rewrite(&self) -> (r: bool) {
        true
    }

    open spec fn rendered(&self, ctx: Context) -> Seq<char> {
        transaction_access_mode_text(*self)
    }

    fn rewrite(&self, f: &mut String, ctx: &RenderContext) -> (r: SRWResult) {
        put(f, transaction_access_mode_keyword(self));
        Ok(())
    }
}

impl SQLReWrite for TransactionIsolationLevel {
    open spec fn renderable(&self) -> bool {
        true
    }

    fn can_rewrite(&self) -> (r: bool) {
        true
    }

    open spec fn rendered(&self, ctx: Context) -> Seq<char> {
        transaction_isolation_level_text(*self)
    }

    fn rewrite(&self, f: &mut String, ctx: &RenderContext) -> (r: SRWResult) {
        put(f, transaction_isolation_level_keyword(self));
        Ok(())
    }
}

impl SQLReWrite for ShowStatementFilter {
    open spec fn renderable(&self) -> bool {
        show_statement_filter_wf(*self)
    }

    fn can_rewrite(&self) -> (r: bool) {
        check_show_statement_filter(self)
    }

    open spec fn rendered(&self, ctx: Context) -> Seq<char> {
        show_statement_filter_text(*self, ctx)
    }

    fn rewrite(&self, f: &mut String, ctx: &RenderContext) -> (r: SRWResult) {
        write_show_statement_filter(self, f, ctx);
        Ok(())
    }
}

impl SQLReWrite for SetVariableValue {
    open spec fn renderable(&self) -> bool {
        set_variable_value_wf(*self)
    }

    fn can_rewrite(&self) -> (r: bool) {
        check_set_variable_value(self)
    }

    open spec fn rendered(&self, ctx: Context) -> Seq<char> {
        set_variable_value_text(*self, ctx)
    }

    fn rewrite(&self, f: &mut String, ctx: &RenderContext) -> (r: SRWResult) {
        write_set_variable_value(self, f, ctx);
        Ok(())
    }
}

impl SQLReWrite for SqliteOnConflict {
    open spec fn renderable(&self) -> bool {
        true
    }

    fn can_rewrite(&self) -> (r: bool) {
        true
    }

    open spec fn rendered(&self, ctx: Context) -> Seq<char> {
        sqlite_on_conflict_text(*self)
    }

    fn rewrite(&self, f: &mut String, ctx: &RenderContext) -> (r: SRWResult) {
        put(f, sqlite_on_conflict_keyword(self));
        Ok(())
    }
}
} // verus!
