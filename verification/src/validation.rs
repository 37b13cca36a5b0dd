//! Validation of configuration text: the syntax first, then a list of rules
//! over the parsed value.

use crate::json::{Json, JsonValue};
use crate::json_parse::{parse_json, parsed_json, JsonSyntaxError, SyntaxErrorView};
use crate::text::texts;
use crate::types::{
    error_views, AppError, ValidationError, ValidationErrorView, ValidationResult,
};
use vstd::prelude::*;

verus! {

/// Something that validates a text.
pub trait Validator {
    /// The findings that this validator has for `content`.
    spec fn findings(&self, content: Seq<char>) -> Seq<ValidationErrorView>;

    /// Validates `content`. A result holds the findings, and is valid
    /// exactly when there are none.
    fn validate(&self, content: &str) -> (r: Result<ValidationResult, AppError>)
        ensures
            r matches Ok(result) ==> error_views(result.errors@) == self.findings(content@)
                && result.is_valid == (result.errors@.len() == 0),
    ;

    /// The name of this validator.
    fn get_validator_name(&self) -> &'static str;
}

/// A rule over a parsed configuration.
pub trait ValidationRule: Send + Sync {
    /// The findings that this rule has for `json`.
    spec fn findings(&self, json: Json) -> Seq<ValidationErrorView>;

    /// The name of this rule.
    spec fn name(&self) -> Seq<char>;

    /// Applies the rule to `json_value`.
    fn validate(&self, json_value: &JsonValue) -> (r: Vec<ValidationError>)
        ensures
            error_views(r@) == self.findings(json_value.model()),
    ;

    /// The name of this rule.
    fn get_rule_name(&self) -> (r: &'static str)
        ensures
            r@ == self.name(),
    ;
}

/// The finding that a syntax error is.
pub open spec fn syntax_finding(e: SyntaxErrorView) -> ValidationErrorView {
    ValidationErrorView {
        line: e.line,
        column: e.column,
        message: e.message,
        error_type: "syntax"@,
    }
}

/// A finding of a rule. Rules see the parsed value, not the text, so their
/// findings stand at line 1, column 1.
pub open spec fn semantic_finding(message: Seq<char>) -> ValidationErrorView {
    ValidationErrorView { line: 1, column: 1, message, error_type: "semantic"@ }
}

/// The finding that a syntax error is.
pub fn syntax_error(e: JsonSyntaxError) -> (r: ValidationError)
    ensures
        r@ == syntax_finding(e@),
{
    ValidationError {
        line: e.line,
        column: e.column,
        message: e.message,
        error_type: String::from_str("syntax"),
    }
}

/// A finding of a rule with the message `message`.
pub fn semantic_error(message: String) -> (r: ValidationError)
    ensures
        r@ == semantic_finding(message@),
{
    ValidationError { line: 1, column: 1, message, error_type: String::from_str("semantic") }
}

/// What the syntax check finds in a text: nothing where it parses, else the
/// parser's error.
pub open spec fn syntax_findings(content: Seq<char>) -> Seq<ValidationErrorView> {
    match parsed_json(content) {
        Ok(_) => Seq::empty(),
        Err(e) => seq![syntax_finding(e)],
    }
}

/// Checks that a text is JSON.
pub struct JsonFormatValidator;

impl Validator for JsonFormatValidator {
    open spec fn findings(&self, content: Seq<char>) -> Seq<ValidationErrorView> {
        syntax_findings(content)
    }

    fn validate(&self, content: &str) -> (r: Result<ValidationResult, AppError>)
        ensures
            r is Ok,
    {
        let mut errors: Vec<ValidationError> = Vec::new();
        match parse_json(content) {
            Ok(_) => {
                assert(error_views(errors@) =~= syntax_findings(content@));
            },
            Err(e) => {
                let ghost finding = syntax_finding(e@);
                errors.push(syntax_error(e));
                assert(error_views(errors@) =~= seq![finding]);
            },
        }
        Ok(ValidationResult { is_valid: errors.is_empty(), errors })
    }

    fn get_validator_name(&self) -> (r: &'static str)
        ensures
            r@ == "json_format"@,
    {
        "json_format"
    }
}

/// The rule that a configuration is a JSON object.
pub struct ObjectRule;

impl ValidationRule for ObjectRule {
    open spec fn findings(&self, json: Json) -> Seq<ValidationErrorView> {
        if json is Object {
            Seq::empty()
        } else {
            seq![semantic_finding("Configuration must be a JSON object"@)]
        }
    }

    open spec fn name(&self) -> Seq<char> {
        "object_rule"@
    }

    fn validate(&self, json_value: &JsonValue) -> (r: Vec<ValidationError>) {
        let mut errors: Vec<ValidationError> = Vec::new();
        if !json_value.is_object() {
            errors.push(semantic_error(String::from_str("Configuration must be a JSON object")));
            assert(error_views(errors@) =~= seq![
                semantic_finding("Configuration must be a JSON object"@),
            ]);
        } else {
            assert(error_views(errors@) =~= Seq::empty());
        }
        errors
    }

    fn get_rule_name(&self) -> (r: &'static str) {
        "object_rule"
    }
}

/// The message for a required field that is missing.
pub open spec fn missing_message(field: Seq<char>) -> Seq<char> {
    "Required field '"@ + field + "' is missing"@
}

/// The findings for the first `n` of the required fields: one for each that
/// the object does not have, in the order of the fields.
pub open spec fn missing_upto(fields: Seq<Seq<char>>, object: Map<Seq<char>, Json>, n: int) -> Seq<
    ValidationErrorView,
>
    decreases n,
{
    if n <= 0 || n > fields.len() {
        Seq::empty()
    } else if object.contains_key(fields[n - 1]) {
        missing_upto(fields, object, n - 1)
    } else {
        missing_upto(fields, object, n - 1).push(semantic_finding(missing_message(fields[n - 1])))
    }
}

/// The rule that a configuration object has certain fields.
pub struct RequiredFieldsRule {
    required_fields: Vec<String>,
}

impl RequiredFieldsRule {
    /// The fields that the rule requires, in order.
    pub closed spec fn fields(&self) -> Seq<Seq<char>> {
        texts(self.required_fields@)
    }

    /// The rule that requires `fields`.
    pub fn new(fields: Vec<String>) -> (r: Self)
        ensures
            r.fields() == texts(fields@),
    {
        Self { required_fields: fields }
    }
}

impl ValidationRule for RequiredFieldsRule {
    open spec fn findings(&self, json: Json) -> Seq<ValidationErrorView> {
        match json {
            Json::Object(object) => missing_upto(
                self.fields(),
                object,
                self.fields().len() as int,
            ),
            _ => Seq::empty(),
        }
    }

    open spec fn name(&self) -> Seq<char> {
        "required_fields"@
    }

    fn validate(&self, json_value: &JsonValue) -> (r: Vec<ValidationError>) {
        let mut errors: Vec<ValidationError> = Vec::new();
        if !json_value.is_object() {
            assert(error_views(errors@) =~= Seq::empty());
            return errors;
        }
        let ghost object = json_value.model()->Object_0;
        let mut i: usize = 0;
        while i < self.required_fields.len()
            invariant
                i <= self.required_fields@.len(),
                json_value.model() == Json::Object(object),
                error_views(errors@) == missing_upto(self.fields(), object, i as int),
            decreases self.required_fields@.len() - i,
        {
            let field = &self.required_fields[i];
            assert(self.fields()[i as int] == field@);
            if !json_value.contains_key(field.as_str()) {
                let message = String::from_str("Required field '").concat(field.as_str()).concat(
                    "' is missing",
                );
                let ghost found = error_views(errors@);
                errors.push(semantic_error(message));
                assert(error_views(errors@) =~= found.push(
                    semantic_finding(missing_message(field@)),
                ));
            }
            i += 1;
        }
        errors
    }

    fn get_rule_name(&self) -> (r: &'static str) {
        "required_fields"
    }
}

/// The type that a field is to have.
#[derive(Debug, Clone, Copy, PartialEq, Eq, Structural)]
pub enum FieldType {
    String,
    Number,
    Boolean,
    Array,
    Object,
}

/// Whether `json` is of the type `expected`.
pub open spec fn type_matches(expected: FieldType, json: Json) -> bool {
    match expected {
        FieldType::String => json is String,
        FieldType::Number => json is Number,
        FieldType::Boolean => json is Bool,
        FieldType::Array => json is Array,
        FieldType::Object => json is Object,
    }
}

/// A field and the type it is to have.
pub struct TypedField {
    pub name: Seq<char>,
    pub expected: FieldType,
}

/// The index of the typed field named `name`, or -1.
pub open spec fn typed_index(fields: Seq<TypedField>, name: Seq<char>) -> int
    decreases fields.len(),
{
    if fields.len() == 0 {
        -1
    } else if fields.last().name == name {
        fields.len() - 1
    } else {
        typed_index(fields.drop_last(), name)
    }
}

/// The typed fields once `name` is to be of the type `expected`: a name that
/// is there keeps its place and takes the new type, a new name comes last.
pub open spec fn with_typed_field(fields: Seq<TypedField>, name: Seq<char>, expected: FieldType) -> Seq<
    TypedField,
> {
    let i = typed_index(fields, name);
    if i < 0 {
        fields.push(TypedField { name, expected })
    } else {
        fields.update(i, TypedField { name, expected })
    }
}

/// The message for a field of the wrong type.
pub open spec fn wrong_type_message(field: Seq<char>) -> Seq<char> {
    "Field '"@ + field + "' has incorrect type"@
}

/// The findings for the first `n` of the typed fields: one for each that the
/// object has with a value of another type, in the order of the fields.
pub open spec fn mistyped_upto(fields: Seq<TypedField>, object: Map<Seq<char>, Json>, n: int) -> Seq<
    ValidationErrorView,
>
    decreases n,
{
    if n <= 0 || n > fields.len() {
        Seq::empty()
    } else if object.contains_key(fields[n - 1].name) && !type_matches(
        fields[n - 1].expected,
        object[fields[n - 1].name],
    ) {
        mistyped_upto(fields, object, n - 1).push(
            semantic_finding(wrong_type_message(fields[n - 1].name)),
        )
    } else {
        mistyped_upto(fields, object, n - 1)
    }
}

/// One entry of a `FieldTypeRule`.
struct FieldEntry {
    name: String,
    expected: FieldType,
}

/// The rule that certain fields of a configuration object, where they are
/// there, have certain types.
pub struct FieldTypeRule {
    entries: Vec<FieldEntry>,
}

impl FieldTypeRule {
    /// The typed fields of the rule, in the order in which they were added.
    pub closed spec fn typed_fields(&self) -> Seq<TypedField> {
        Seq::new(
            self.entries@.len(),
            |i: int| TypedField { name: self.entries@[i].name@, expected: self.entries@[i].expected },
        )
    }

    /// The rule without any typed field.
    pub fn new() -> (r: Self)
        ensures
            r.typed_fields() == Seq::<TypedField>::empty(),
    {
        let r = Self { entries: Vec::new() };
        assert(r.typed_fields() =~= Seq::<TypedField>::empty());
        r
    }

    /// The rule with `field_name` to be of the type `field_type`.
    pub fn add_field_type(self, field_name: String, field_type: FieldType) -> (r: Self)
        ensures
            r.typed_fields() == with_typed_field(self.typed_fields(), field_name@, field_type),
    {
        let ghost before = self.typed_fields();
        proof {
            lemma_typed_index(before, field_name@);
        }
        let mut rule = self;
        let mut i: usize = rule.entries.len();
        while i > 0
            invariant
                i <= rule.entries@.len(),
                before == self.typed_fields(),
                rule.typed_fields() == before,
                forall|j: int| i <= j < before.len() ==> before[j].name != field_name@,
            decreases i,
        {
            i -= 1;
            if rule.entries[i].name == field_name {
                assert(before[i as int].name == field_name@);
                proof {
                    lemma_typed_index(before, field_name@);
                }
                let ghost earlier = rule.entries@;
                rule.entries[i].expected = field_type;
                assert forall|k: int| 0 <= k < before.len() implies rule.typed_fields()[k]
                    == with_typed_field(before, field_name@, field_type)[k] by {
                    if k != i {
                        assert(rule.entries@[k] == earlier[k]);
                        assert(before[k] == (TypedField {
                            name: earlier[k].name@,
                            expected: earlier[k].expected,
                        }));
                    }
                }
                assert(rule.typed_fields() =~= with_typed_field(before, field_name@, field_type));
                return rule;
            }
        }
        proof {
            lemma_typed_index(before, field_name@);
        }
        rule.entries.push(FieldEntry { name: field_name, expected: field_type });
        assert(rule.typed_fields() =~= with_typed_field(before, field_name@, field_type));
        rule
    }
}

/// What `typed_index` finds: the field at the index has the name and none
/// after it has; -1 means that no field has the name.
pub proof fn lemma_typed_index(fields: Seq<TypedField>, name: Seq<char>)
    ensures
        -1 <= typed_index(fields, name) < fields.len(),
        typed_index(fields, name) >= 0 ==> fields[typed_index(fields, name)].name == name,
        forall|j: int| typed_index(fields, name) < j < fields.len() ==> fields[j].name != name,
    decreases fields.len(),
{
    if fields.len() > 0 && fields.last().name != name {
        lemma_typed_index(fields.drop_last(), name);
        assert forall|j: int| typed_index(fields, name) < j < fields.len() implies fields[j].name
            != name by {
            if j < fields.len() - 1 {
                assert(fields.drop_last()[j] == fields[j]);
            }
        }
    }
}

impl ValidationRule for FieldTypeRule {
    open spec fn findings(&self, json: Json) -> Seq<ValidationErrorView> {
        match json {
            Json::Object(object) => mistyped_upto(
                self.typed_fields(),
                object,
                self.typed_fields().len() as int,
            ),
            _ => Seq::empty(),
        }
    }

    open spec fn name(&self) -> Seq<char> {
        "field_type"@
    }

    fn validate(&self, json_value: &JsonValue) -> (r: Vec<ValidationError>) {
        let mut errors: Vec<ValidationError> = Vec::new();
        if !json_value.is_object() {
            assert(error_views(errors@) =~= Seq::empty());
            return errors;
        }
        let ghost object = json_value.model()->Object_0;
        let mut i: usize = 0;
        while i < self.entries.len()
            invariant
                i <= self.entries@.len(),
                json_value.model() == Json::Object(object),
                error_views(errors@) == mistyped_upto(self.typed_fields(), object, i as int),
            decreases self.entries@.len() - i,
        {
            let field = &self.entries[i].name;
            let expected = self.entries[i].expected;
            assert(self.typed_fields()[i as int] == (TypedField { name: field@, expected }));
            match json_value.get(field.as_str()) {
                Some(value) => {
                    let matches = match expected {
                        FieldType::String => value.is_string(),
                        FieldType::Number => value.is_number(),
                        FieldType::Boolean => value.is_boolean(),
                        FieldType::Array => value.is_array(),
                        FieldType::Object => value.is_object(),
                    };
                    if !matches {
                        let message = String::from_str("Field '").concat(field.as_str()).concat(
                            "' has incorrect type",
                        );
                        let ghost found = error_views(errors@);
                        errors.push(semantic_error(message));
                        assert(error_views(errors@) =~= found.push(
                            semantic_finding(wrong_type_message(field@)),
                        ));
                    }
                },
                None => {},
            }
            i += 1;
        }
        errors
    }

    fn get_rule_name(&self) -> (r: &'static str) {
        "field_type"
    }
}

/// One of the rules that a validator can hold.
pub enum Rule {
    Object(ObjectRule),
    RequiredFields(RequiredFieldsRule),
    FieldType(FieldTypeRule),
}

impl ValidationRule for Rule {
    open spec fn findings(&self, json: Json) -> Seq<ValidationErrorView> {
        match self {
            Rule::Object(rule) => rule.findings(json),
            Rule::RequiredFields(rule) => rule.findings(json),
            Rule::FieldType(rule) => rule.findings(json),
        }
    }

    open spec fn name(&self) -> Seq<char> {
        match self {
            Rule::Object(rule) => rule.name(),
            Rule::RequiredFields(rule) => rule.name(),
            Rule::FieldType(rule) => rule.name(),
        }
    }

    fn validate(&self, json_value: &JsonValue) -> (r: Vec<ValidationError>) {
        match self {
            Rule::Object(rule) => rule.validate(json_value),
            Rule::RequiredFields(rule) => rule.validate(json_value),
            Rule::FieldType(rule) => rule.validate(json_value),
        }
    }

    fn get_rule_name(&self) -> (r: &'static str) {
        match self {
            Rule::Object(rule) => rule.get_rule_name(),
            Rule::RequiredFields(rule) => rule.get_rule_name(),
            Rule::FieldType(rule) => rule.get_rule_name(),
        }
    }
}

/// The findings of the first `n` of `rules` for `json`, in the order of the
/// rules.
pub open spec fn rule_findings_upto(rules: Seq<Rule>, json: Json, n: int) -> Seq<
    ValidationErrorView,
>
    decreases n,
{
    if n <= 0 || n > rules.len() {
        Seq::empty()
    } else {
        rule_findings_upto(rules, json, n - 1) + rules[n - 1].findings(json)
    }
}

/// What a validator with the rules `rules` finds in a text: the syntax error
/// where it does not parse, and then no rule is asked; else the findings of
/// all rules.
pub open spec fn validator_findings(rules: Seq<Rule>, content: Seq<char>) -> Seq<
    ValidationErrorView,
> {
    match parsed_json(content) {
        Err(e) => seq![syntax_finding(e)],
        Ok(json) => rule_findings_upto(rules, json, rules.len() as int),
    }
}

/// Validates configuration text: its syntax, then each of its rules.
pub struct JsonValidator {
    rules: Vec<Rule>,
}

impl JsonValidator {
    /// The rules of the validator, in the order in which they are applied.
    pub closed spec fn rules(&self) -> Seq<Rule> {
        self.rules@
    }

    /// A validator without rules: it checks the syntax only.
    pub fn new() -> (r: Self)
        ensures
            r.rules() == Seq::<Rule>::empty(),
    {
        Self { rules: Vec::new() }
    }

    /// A validator with the one rule that a configuration is an object.
    pub fn with_basic_rules() -> (r: Self)
        ensures
            r.rules() == seq![Rule::Object(ObjectRule)],
    {
        let mut validator = Self::new();
        validator.add_rule(Rule::Object(ObjectRule));
        validator
    }

    /// Adds `rule` after the rules that are there.
    pub fn add_rule(&mut self, rule: Rule)
        ensures
            final(self).rules() == old(self).rules().push(rule),
    {
        self.rules.push(rule);
    }

    /// Validates `content`. The result holds the findings, and is valid
    /// exactly when there are none.
    pub fn validate(&self, content: &str) -> (r: Result<ValidationResult, AppError>)
        ensures
            r matches Ok(result) && error_views(result.errors@) == validator_findings(
                self.rules(),
                content@,
            ) && result.is_valid == (result.errors@.len() == 0),
    {
        match parse_json(content) {
            Err(e) => {
                let mut errors: Vec<ValidationError> = Vec::new();
                let ghost finding = syntax_finding(e@);
                errors.push(syntax_error(e));
                assert(error_views(errors@) =~= seq![finding]);
                Ok(ValidationResult { is_valid: false, errors })
            },
            Ok(value) => {
                let errors = self.apply_rules(&value);
                Ok(ValidationResult { is_valid: errors.is_empty(), errors })
            },
        }
    }

    /// The findings of all rules for a parsed configuration, in the order of
    /// the rules.
    pub fn apply_rules(&self, value: &JsonValue) -> (r: Vec<ValidationError>)
        ensures
            error_views(r@) == rule_findings_upto(
                self.rules(),
                value.model(),
                self.rules().len() as int,
            ),
    {
        let mut all: Vec<ValidationError> = Vec::new();
        let mut i: usize = 0;
        while i < self.rules.len()
            invariant
                i <= self.rules@.len(),
                error_views(all@) == rule_findings_upto(self.rules(), value.model(), i as int),
            decreases self.rules@.len() - i,
        {
            let mut found = self.rules[i].validate(value);
            let ghost so_far = error_views(all@);
            let ghost added = error_views(found@);
            all.append(&mut found);
            assert(error_views(all@) =~= so_far + added);
            i += 1;
        }
        all
    }

    /// The names of the rules, in the order in which they are applied.
    pub fn get_rule_names(&self) -> (r: Vec<&'static str>)
        ensures
            r@.len() == self.rules().len(),
            forall|i: int| 0 <= i < r@.len() ==> r@[i]@ == self.rules()[i].name(),
    {
        let mut names: Vec<&'static str> = Vec::new();
        let mut i: usize = 0;
        while i < self.rules.len()
            invariant
                i <= self.rules@.len(),
                names@.len() == i,
                forall|k: int| 0 <= k < i ==> names@[k]@ == self.rules()[k].name(),
            decreases self.rules@.len() - i,
        {
            names.push(self.rules[i].get_rule_name());
            i += 1;
        }
        names
    }
}

impl Default for JsonValidator {
    fn default() -> (r: Self)
        ensures
            r.rules() == seq![Rule::Object(ObjectRule)],
    {
        Self::with_basic_rules()
    }
}

/// What the validation of a configuration text finds: the syntax error where
/// it does not parse; one finding where it parses to something other than an
/// object; nothing in an object.
pub open spec fn content_findings(content: Seq<char>) -> Seq<ValidationErrorView> {
    match parsed_json(content) {
        Err(e) => seq![syntax_finding(e)],
        Ok(json) => ObjectRule.findings(json),
    }
}

/// Validates a configuration text with the basic rules.
pub fn validate_json_content(content: &str) -> (r: ValidationResult)
    ensures
        error_views(r.errors@) == content_findings(content@),
        r.is_valid == (r.errors@.len() == 0),
{
    match parse_json(content) {
        Err(e) => {
            let mut errors: Vec<ValidationError> = Vec::new();
            let ghost finding = syntax_finding(e@);
            errors.push(syntax_error(e));
            assert(error_views(errors@) =~= seq![finding]);
            ValidationResult { is_valid: false, errors }
        },
        Ok(value) => {
            let errors = ObjectRule.validate(&value);
            ValidationResult { is_valid: errors.is_empty(), errors }
        },
    }
}

/// A validator with the basic rules finds the syntax error in a text that
/// does not parse, one finding in a text that parses to something other than
/// an object, and nothing in an object.
pub proof fn lemma_basic_findings(content: Seq<char>)
    ensures
        validator_findings(seq![Rule::Object(ObjectRule)], content) == content_findings(content),
{
    let rules = seq![Rule::Object(ObjectRule)];
    match parsed_json(content) {
        Err(e) => {},
        Ok(json) => {
            assert(rule_findings_upto(rules, json, 0) == Seq::<ValidationErrorView>::empty());
            assert(rule_findings_upto(rules, json, 1) =~= ObjectRule.findings(json));
        },
    }
}

} // verus!
