//! Field-level updates of an agent or a command across its two stores: the
//! markdown file with its frontmatter and body, and the entity's section of
//! the structured configuration file.
use vstd::prelude::*;
use vstd::string::*;
use crate::config::{
    match_prompt_reference, prompt_file_pattern, prompt_path_from_captures, prompt_path_of,
};
use crate::patterns::{captures_view, regex_groups};
use crate::text::{
    append_chars, chars_of, str_eq, string_of, strings_view, trim_chars, trim_seq,
};

verus! {

/// A value of a field, as far as the routing of updates reads it.
pub enum FieldValue {
    /// The JSON value `null`.
    Null,
    /// A JSON string.
    Text(String),
    /// Any other JSON value, as JSON text.
    Other(String),
}

/// The mathematical form of a field's value.
pub enum ValueView {
    Null,
    Text(Seq<char>),
    Other(Seq<char>),
}

impl View for FieldValue {
    type V = ValueView;

    open spec fn view(&self) -> ValueView {
        match *self {
            FieldValue::Null => ValueView::Null,
            FieldValue::Text(s) => ValueView::Text(s@),
            FieldValue::Other(s) => ValueView::Other(s@),
        }
    }
}

/// A named field of an entity.
pub struct Field {
    pub name: String,
    pub value: FieldValue,
}

/// The names and values of a list of fields.
pub open spec fn fields_view(fields: Seq<Field>) -> Seq<(Seq<char>, ValueView)> {
    Seq::new(fields.len(), |i: int| (fields[i].name@, fields[i].value@))
}

/// The value of the field `name`, if the list has it.
pub open spec fn lookup(fields: Seq<(Seq<char>, ValueView)>, name: Seq<char>) -> Option<ValueView>
    decreases fields.len(),
{
    if fields.len() == 0 {
        None
    } else if fields.last().0 == name {
        Some(fields.last().1)
    } else {
        lookup(fields.drop_last(), name)
    }
}

/// The list without the field `name`.
pub open spec fn without(fields: Seq<(Seq<char>, ValueView)>, name: Seq<char>) -> Seq<
    (Seq<char>, ValueView),
>
    decreases fields.len(),
{
    if fields.len() == 0 {
        fields
    } else if fields.last().0 == name {
        without(fields.drop_last(), name)
    } else {
        without(fields.drop_last(), name).push(fields.last())
    }
}

/// The list with the field `name` set to `value`.
pub open spec fn put(fields: Seq<(Seq<char>, ValueView)>, name: Seq<char>, value: ValueView)
    -> Seq<(Seq<char>, ValueView)> {
    without(fields, name).push((name, value))
}

/// A copy of a value.
pub fn copy_value(value: &FieldValue) -> (r: FieldValue)
    ensures
        r@ == value@,
{
    match value {
        FieldValue::Null => FieldValue::Null,
        FieldValue::Text(s) => FieldValue::Text(s.clone()),
        FieldValue::Other(s) => FieldValue::Other(s.clone()),
    }
}

/// The position of the field `name` in the list.
pub fn find_field(fields: &Vec<Field>, name: &str) -> (r: Option<usize>)
    ensures
        r is Some <==> lookup(fields_view(fields@), name@) is Some,
        r matches Some(i) ==> i < fields@.len() && fields@[i as int].name@ == name@ && Some(
            fields@[i as int].value@,
        ) == lookup(fields_view(fields@), name@),
{
    let ghost all = fields_view(fields@);
    let mut i: usize = fields.len();
    assert(all.take(i as int) =~= all);
    while i > 0
        invariant
            i <= fields.len(),
            all == fields_view(fields@),
            lookup(all, name@) == lookup(all.take(i as int), name@),
        decreases i,
    {
        assert(all.take(i as int).last() == (fields@[i - 1].name@, fields@[i - 1].value@));
        assert(all.take(i as int).drop_last() =~= all.take(i - 1));
        if str_eq(fields[i - 1].name.as_str(), name) {
            return Some(i - 1);
        }
        i -= 1;
    }
    assert(all.take(0) =~= Seq::<(Seq<char>, ValueView)>::empty());
    None
}

/// Removes the field `name` from the list; says whether it was there.
pub fn remove_field(fields: &mut Vec<Field>, name: &str) -> (removed: bool)
    ensures
        fields_view(final(fields)@) == without(fields_view(old(fields)@), name@),
        removed == lookup(fields_view(old(fields)@), name@) is Some,
{
    let removed = find_field(fields, name).is_some();
    let ghost orig = fields_view(fields@);
    let mut i: usize = fields.len();
    proof {
        assert(fields_view(fields@).take(i as int) =~= orig);
        assert(without(orig, name@) + fields_view(fields@).skip(i as int) =~= without(orig, name@));
    }
    while i > 0
        invariant
            i <= fields.len(),
            without(orig, name@) == without(fields_view(fields@).take(i as int), name@)
                + fields_view(fields@).skip(i as int),
        decreases i,
    {
        let ghost before = fields_view(fields@);
        proof {
            assert(before.take(i as int).last() == before[i - 1]);
            assert(before.take(i as int).drop_last() =~= before.take(i - 1));
        }
        if str_eq(fields[i - 1].name.as_str(), name) {
            fields.remove(i - 1);
            proof {
                let after = fields_view(fields@);
                assert(after =~= before.remove(i - 1));
                assert(after.take(i - 1) =~= before.take(i - 1));
                assert(after.skip(i - 1) =~= before.skip(i as int));
            }
        } else {
            proof {
                assert(without(before.take(i - 1), name@).push(before[i - 1]) + before.skip(
                    i as int,
                ) =~= without(before.take(i - 1), name@) + before.skip(i - 1));
            }
        }
        i -= 1;
    }
    proof {
        let after = fields_view(fields@);
        assert(after.take(0) =~= Seq::<(Seq<char>, ValueView)>::empty());
        assert(after.skip(0) =~= after);
        assert(without(after.take(0), name@) + after =~= after);
    }
    removed
}

/// Sets the field `name` of the list to `value`.
pub fn put_field(fields: &mut Vec<Field>, name: &str, value: FieldValue)
    ensures
        fields_view(final(fields)@) == put(fields_view(old(fields)@), name@, value@),
{
    remove_field(fields, name);
    let ghost before = fields_view(fields@);
    fields.push(Field { name: name.to_owned(), value });
    assert(fields_view(fields@) =~= before.push((name@, value@)));
}

/// What a stored content value refers to.
pub enum Reference {
    /// The value is no file reference: the content is held inline.
    Plain,
    /// The value has the form of a file reference but names no file.
    Invalid,
    /// The value refers to the file at this path.
    File(String),
}

/// The mathematical form of a reference.
pub enum ReferenceView {
    Plain,
    Invalid,
    File(Seq<char>),
}

impl View for Reference {
    type V = ReferenceView;

    open spec fn view(&self) -> ReferenceView {
        match *self {
            Reference::Plain => ReferenceView::Plain,
            Reference::Invalid => ReferenceView::Invalid,
            Reference::File(p) => ReferenceView::File(p@),
        }
    }
}

/// What a match attempt on a stored content value says of it.
pub open spec fn reference_of_groups(
    groups: Option<Seq<Option<Seq<char>>>>,
    config_dir: Seq<char>,
) -> ReferenceView {
    if groups is None {
        ReferenceView::Plain
    } else {
        match prompt_path_of(groups, config_dir) {
            Some(path) => ReferenceView::File(path),
            None => ReferenceView::Invalid,
        }
    }
}

/// What the stored content value refers to: only a string can be a file
/// reference.
pub open spec fn stored_reference(stored: Option<ValueView>, config_dir: Seq<char>)
    -> ReferenceView {
    match stored {
        Some(ValueView::Text(s)) => reference_of_groups(
            regex_groups(prompt_file_pattern(), trim_seq(s)),
            config_dir,
        ),
        _ => ReferenceView::Plain,
    }
}

/// Judges a stored content value by what the match attempt on it gave.
pub fn reference_from_captures(captures: &Option<Vec<Option<String>>>, config_dir: &str) -> (r:
    Reference)
    ensures
        r@ == reference_of_groups(captures_view(*captures), config_dir@),
{
    if captures.is_none() {
        return Reference::Plain;
    }
    match prompt_path_from_captures(captures, config_dir) {
        Some(path) => Reference::File(path),
        None => Reference::Invalid,
    }
}

/// The markdown file of an entity.
pub struct MarkdownEntity {
    pub frontmatter: Vec<Field>,
    pub body: String,
}

/// What the two stores hold of an entity.
pub struct EntityStores {
    /// The markdown file, if there is one.
    pub markdown: Option<MarkdownEntity>,
    /// The fields of the entity's section of the structured file; empty
    /// where it has none.
    pub structured: Vec<Field>,
}

/// The content of a prompt file to write.
pub struct PromptWrite {
    pub path: String,
    pub content: String,
}

/// The outcome of a run of updates.
pub struct UpdatePlan {
    /// The two stores after the updates.
    pub stores: EntityStores,
    /// Whether the markdown file changed.
    pub markdown_modified: bool,
    /// Whether the structured section changed.
    pub structured_modified: bool,
    /// The prompt files to write, in order.
    pub file_writes: Vec<PromptWrite>,
    /// Whether an update met a file reference that names no file; the
    /// updates after it were not applied.
    pub failed: bool,
}

/// The mathematical form of the two stores.
pub struct StoresView {
    pub markdown: Option<(Seq<(Seq<char>, ValueView)>, Seq<char>)>,
    pub structured: Seq<(Seq<char>, ValueView)>,
}

/// The mathematical form of an outcome.
pub struct PlanView {
    pub stores: StoresView,
    pub markdown_modified: bool,
    pub structured_modified: bool,
    pub file_writes: Seq<(Seq<char>, Seq<char>)>,
    pub failed: bool,
}

/// The paths and contents of a list of prompt files.
pub open spec fn writes_view(writes: Seq<PromptWrite>) -> Seq<(Seq<char>, Seq<char>)> {
    Seq::new(writes.len(), |i: int| (writes[i].path@, writes[i].content@))
}

impl View for EntityStores {
    type V = StoresView;

    open spec fn view(&self) -> StoresView {
        StoresView {
            markdown: match self.markdown {
                Some(md) => Some((fields_view(md.frontmatter@), md.body@)),
                None => None,
            },
            structured: fields_view(self.structured@),
        }
    }
}

impl View for UpdatePlan {
    type V = PlanView;

    open spec fn view(&self) -> PlanView {
        PlanView {
            stores: self.stores@,
            markdown_modified: self.markdown_modified,
            structured_modified: self.structured_modified,
            file_writes: writes_view(self.file_writes@),
            failed: self.failed,
        }
    }
}

/// The kind of an entity.
#[derive(Clone, Copy, Debug, PartialEq, Eq, Structural)]
pub enum EntityKind {
    Agent,
    Command,
}

/// The name of the content field of a kind: `prompt` for an agent,
/// `template` for a command.
pub open spec fn content_field(kind: EntityKind) -> Seq<char> {
    match kind {
        EntityKind::Agent => "prompt"@,
        EntityKind::Command => "template"@,
    }
}

/// The name of the content field of a kind.
pub fn content_field_name(kind: EntityKind) -> (r: &'static str)
    ensures
        r@ == content_field(kind),
{
    match kind {
        EntityKind::Agent => "prompt",
        EntityKind::Command => "template",
    }
}

/// The text of a content value: that of a string, empty for any other
/// value.
pub open spec fn content_text(value: ValueView) -> Seq<char> {
    match value {
        ValueView::Text(t) => t,
        _ => Seq::empty(),
    }
}

/// The outcome after one more update, given what the stored content value
/// refers to.
///
/// - `null` removes the field from wherever it is.
/// - The content field goes to the markdown body where there is a
///   markdown file; else through to the referenced file where the stored
///   content is a file reference; else inline into the structured section.
/// - Any other field is updated where it is defined, the markdown file
///   first; a new field goes to the markdown frontmatter where only the
///   markdown file defines the entity, else to the structured section.
pub open spec fn apply_update(
    kind: EntityKind,
    p: PlanView,
    field: Seq<char>,
    value: ValueView,
    reference: ReferenceView,
) -> PlanView {
    if p.failed {
        p
    } else if value is Null {
        PlanView {
            stores: StoresView {
                markdown: match p.stores.markdown {
                    Some(md) => Some((without(md.0, field), md.1)),
                    None => None,
                },
                structured: without(p.stores.structured, field),
            },
            markdown_modified: p.markdown_modified || (p.stores.markdown matches Some(md)
                && lookup(md.0, field) is Some),
            structured_modified: p.structured_modified || lookup(p.stores.structured, field)
                is Some,
            ..p
        }
    } else if field == content_field(kind) {
        match p.stores.markdown {
            Some(md) => PlanView {
                stores: StoresView { markdown: Some((md.0, content_text(value))), ..p.stores },
                markdown_modified: true,
                ..p
            },
            None => match reference {
                ReferenceView::File(path) => PlanView {
                    file_writes: p.file_writes.push((path, content_text(value))),
                    ..p
                },
                ReferenceView::Invalid => PlanView { failed: true, ..p },
                ReferenceView::Plain => PlanView {
                    stores: StoresView {
                        structured: put(
                            p.stores.structured,
                            field,
                            ValueView::Text(content_text(value)),
                        ),
                        ..p.stores
                    },
                    structured_modified: true,
                    ..p
                },
            },
        }
    } else {
        match p.stores.markdown {
            Some(md) => if lookup(md.0, field) is Some || p.stores.structured.len() == 0 {
                PlanView {
                    stores: StoresView {
                        markdown: Some((put(md.0, field, value), md.1)),
                        ..p.stores
                    },
                    markdown_modified: true,
                    ..p
                }
            } else {
                PlanView {
                    stores: StoresView {
                        structured: put(p.stores.structured, field, value),
                        ..p.stores
                    },
                    structured_modified: true,
                    ..p
                }
            },
            None => PlanView {
                stores: StoresView {
                    structured: put(p.stores.structured, field, value),
                    ..p.stores
                },
                structured_modified: true,
                ..p
            },
        }
    }
}

/// An update of one field.
pub struct FieldUpdate {
    pub field: String,
    pub value: FieldValue,
}

/// The names and values of a list of updates.
pub open spec fn updates_view(updates: Seq<FieldUpdate>) -> Seq<(Seq<char>, ValueView)> {
    Seq::new(updates.len(), |i: int| (updates[i].field@, updates[i].value@))
}

/// The outcome after a list of updates, applied in order.
pub open spec fn apply_updates(
    kind: EntityKind,
    config_dir: Seq<char>,
    start: PlanView,
    updates: Seq<(Seq<char>, ValueView)>,
) -> PlanView
    decreases updates.len(),
{
    if updates.len() == 0 {
        start
    } else {
        let before = apply_updates(kind, config_dir, start, updates.drop_last());
        apply_update(
            kind,
            before,
            updates.last().0,
            updates.last().1,
            stored_reference(lookup(before.stores.structured, content_field(kind)), config_dir),
        )
    }
}

/// The outcome before any update.
pub open spec fn fresh_plan(stores: StoresView) -> PlanView {
    PlanView {
        stores,
        markdown_modified: false,
        structured_modified: false,
        file_writes: Seq::empty(),
        failed: false,
    }
}

/// Whether the markdown file is to be written: it changed and no update
/// failed.
pub open spec fn writes_markdown(p: PlanView) -> bool {
    p.markdown_modified && !p.failed
}

/// The text of a content value.
fn content_of(value: &FieldValue) -> (r: String)
    ensures
        r@ == content_text(value@),
{
    match value {
        FieldValue::Text(t) => t.clone(),
        _ => String::new(),
    }
}

/// Applies one update to an outcome, given what the stored content value
/// refers to.
pub fn apply_field_update(
    kind: EntityKind,
    plan: UpdatePlan,
    update: &FieldUpdate,
    reference: Reference,
) -> (r: UpdatePlan)
    ensures
        r@ == apply_update(kind, plan@, update.field@, update.value@, reference@),
{
    if plan.failed {
        return plan;
    }
    let UpdatePlan { stores, markdown_modified, structured_modified, file_writes, failed } = plan;
    let EntityStores { markdown, structured } = stores;
    let mut structured = structured;
    let mut file_writes = file_writes;
    let field = update.field.as_str();
    let is_null = match &update.value {
        FieldValue::Null => true,
        _ => false,
    };
    if is_null {
        let structured_had = remove_field(&mut structured, field);
        match markdown {
            Some(md) => {
                let MarkdownEntity { frontmatter, body } = md;
                let mut frontmatter = frontmatter;
                let markdown_had = remove_field(&mut frontmatter, field);
                UpdatePlan {
                    stores: EntityStores {
                        markdown: Some(MarkdownEntity { frontmatter, body }),
                        structured,
                    },
                    markdown_modified: markdown_modified || markdown_had,
                    structured_modified: structured_modified || structured_had,
                    file_writes,
                    failed,
                }
            },
            None => UpdatePlan {
                stores: EntityStores { markdown: None, structured },
                markdown_modified,
                structured_modified: structured_modified || structured_had,
                file_writes,
                failed,
            },
        }
    } else if str_eq(field, content_field_name(kind)) {
        let text = content_of(&update.value);
        match markdown {
            Some(md) => {
                let MarkdownEntity { frontmatter, body } = md;
                UpdatePlan {
                    stores: EntityStores {
                        markdown: Some(MarkdownEntity { frontmatter, body: text }),
                        structured,
                    },
                    markdown_modified: true,
                    structured_modified,
                    file_writes,
                    failed,
                }
            },
            None => match reference {
                Reference::File(path) => {
                    let ghost before = writes_view(file_writes@);
                    file_writes.push(PromptWrite { path, content: text });
                    assert(writes_view(file_writes@) =~= before.push((path@, text@)));
                    UpdatePlan {
                        stores: EntityStores { markdown: None, structured },
                        markdown_modified,
                        structured_modified,
                        file_writes,
                        failed,
                    }
                },
                Reference::Invalid => UpdatePlan {
                    stores: EntityStores { markdown: None, structured },
                    markdown_modified,
                    structured_modified,
                    file_writes,
                    failed: true,
                },
                Reference::Plain => {
                    put_field(&mut structured, field, FieldValue::Text(text));
                    UpdatePlan {
                        stores: EntityStores { markdown: None, structured },
                        markdown_modified,
                        structured_modified: true,
                        file_writes,
                        failed,
                    }
                },
            },
        }
    } else {
        let value = copy_value(&update.value);
        match markdown {
            Some(md) => {
                let MarkdownEntity { frontmatter, body } = md;
                let mut frontmatter = frontmatter;
                if find_field(&frontmatter, field).is_some() || structured.len() == 0 {
                    put_field(&mut frontmatter, field, value);
                    UpdatePlan {
                        stores: EntityStores {
                            markdown: Some(MarkdownEntity { frontmatter, body }),
                            structured,
                        },
                        markdown_modified: true,
                        structured_modified,
                        file_writes,
                        failed,
                    }
                } else {
                    put_field(&mut structured, field, value);
                    UpdatePlan {
                        stores: EntityStores {
                            markdown: Some(MarkdownEntity { frontmatter, body }),
                            structured,
                        },
                        markdown_modified,
                        structured_modified: true,
                        file_writes,
                        failed,
                    }
                }
            },
            None => {
                put_field(&mut structured, field, value);
                UpdatePlan {
                    stores: EntityStores { markdown: None, structured },
                    markdown_modified,
                    structured_modified: true,
                    file_writes,
                    failed,
                }
            },
        }
    }
}

/// What the content value stored in the structured section refers to.
pub fn classify_stored_content(kind: EntityKind, structured: &Vec<Field>, config_dir: &str) -> (r:
    Reference)
    ensures
        r@ == stored_reference(
            lookup(fields_view(structured@), content_field(kind)),
            config_dir@,
        ),
{
    match find_field(structured, content_field_name(kind)) {
        Some(i) => match &structured[i].value {
            FieldValue::Text(stored) => {
                let captures = match_prompt_reference(stored.as_str());
                reference_from_captures(&captures, config_dir)
            },
            _ => Reference::Plain,
        },
        None => Reference::Plain,
    }
}

/// Applies a list of updates, in order, to what the two stores hold of an
/// entity. `config_dir` is the directory that relative file references
/// start from.
pub fn plan_update(
    kind: EntityKind,
    stores: EntityStores,
    updates: &Vec<FieldUpdate>,
    config_dir: &str,
) -> (r: UpdatePlan)
    ensures
        r@ == apply_updates(kind, config_dir@, fresh_plan(stores@), updates_view(updates@)),
{
    let mut plan = UpdatePlan {
        stores,
        markdown_modified: false,
        structured_modified: false,
        file_writes: Vec::new(),
        failed: false,
    };
    let ghost all = updates_view(updates@);
    let ghost start = fresh_plan(stores@);
    let mut i: usize = 0;
    proof {
        assert(writes_view(plan.file_writes@) =~= Seq::<(Seq<char>, Seq<char>)>::empty());
        assert(all.take(0) =~= Seq::<(Seq<char>, ValueView)>::empty());
    }
    while i < updates.len()
        invariant
            i <= updates.len(),
            all == updates_view(updates@),
            plan@ == apply_updates(kind, config_dir@, start, all.take(i as int)),
        decreases updates.len() - i,
    {
        proof {
            assert(all.take(i + 1).drop_last() =~= all.take(i as int));
            assert(all.take(i + 1).last() == (updates@[i as int].field@, updates@[i as int].value@));
        }
        let reference = classify_stored_content(kind, &plan.stores.structured, config_dir);
        plan = apply_field_update(kind, plan, &updates[i], reference);
        i += 1;
    }
    assert(all.take(updates.len() as int) =~= all);
    plan
}

/// Plans the update of an agent.
pub fn update_agent(stores: EntityStores, updates: &Vec<FieldUpdate>, config_dir: &str) -> (r:
    UpdatePlan)
    ensures
        r@ == apply_updates(
            EntityKind::Agent,
            config_dir@,
            fresh_plan(stores@),
            updates_view(updates@),
        ),
{
    plan_update(EntityKind::Agent, stores, updates, config_dir)
}

/// Plans the update of a command.
pub fn update_command(stores: EntityStores, updates: &Vec<FieldUpdate>, config_dir: &str) -> (r:
    UpdatePlan)
    ensures
        r@ == apply_updates(
            EntityKind::Command,
            config_dir@,
            fresh_plan(stores@),
            updates_view(updates@),
        ),
{
    plan_update(EntityKind::Command, stores, updates, config_dir)
}

/// Whether the markdown file is to be written after a run of updates.
pub fn should_write_markdown(plan: &UpdatePlan) -> (r: bool)
    ensures
        r == writes_markdown(plan@),
{
    plan.markdown_modified && !plan.failed
}

/// Whether the structured section is to be written after a run of
/// updates on an entity that had a markdown file or not, and structured
/// fields or not, before.
pub fn should_write_structured(plan: &UpdatePlan, had_markdown: bool, had_structured: bool) -> (r:
    bool)
    ensures
        r == (plan@.structured_modified && !plan@.failed && !(had_markdown && !had_structured)),
{
    plan.structured_modified && !plan.failed && !(had_markdown && !had_structured)
}


/// The word for a kind at the start of a message.
pub open spec fn kind_label(kind: EntityKind) -> Seq<char> {
    match kind {
        EntityKind::Agent => "Agent"@,
        EntityKind::Command => "Command"@,
    }
}

/// The word for a kind at the start of a message.
pub fn kind_label_of(kind: EntityKind) -> (r: &'static str)
    ensures
        r@ == kind_label(kind),
{
    match kind {
        EntityKind::Agent => "Agent",
        EntityKind::Command => "Command",
    }
}

/// The three parts of a message written one after another.
fn message_of(first: &str, second: &str, third: &str) -> (r: String)
    ensures
        r@ == first@ + second@ + third@,
{
    let mut out = chars_of(first);
    append_chars(&mut out, &chars_of(second));
    append_chars(&mut out, &chars_of(third));
    string_of(&out)
}

/// Why an entity cannot be created: it exists already, in the markdown
/// store or else in the structured one.
pub open spec fn create_conflict(
    kind: EntityKind,
    name: Seq<char>,
    in_markdown: bool,
    in_structured: bool,
) -> Option<Seq<char>> {
    if in_markdown {
        Some(kind_label(kind) + " "@ + name + " already exists as .md file"@)
    } else if in_structured {
        Some(kind_label(kind) + " "@ + name + " already exists in opencode.json"@)
    } else {
        None
    }
}

/// The markdown file of a new entity: the given fields but the content
/// field as frontmatter, and the content field's text as body.
pub open spec fn created_markdown(kind: EntityKind, config: Seq<(Seq<char>, ValueView)>) -> (
    Seq<(Seq<char>, ValueView)>,
    Seq<char>,
) {
    (
        without(config, content_field(kind)),
        match lookup(config, content_field(kind)) {
            Some(value) => content_text(value),
            None => Seq::empty(),
        },
    )
}

/// Plans the creation of an entity as a markdown file. It fails, with the
/// message to report, where either store defines the entity already.
pub fn plan_create(
    kind: EntityKind,
    name: &str,
    in_markdown: bool,
    in_structured: bool,
    config: Vec<Field>,
) -> (r: Result<MarkdownEntity, String>)
    ensures
        r is Ok <==> !in_markdown && !in_structured,
        r matches Err(message) ==> Some(message@) == create_conflict(
            kind,
            name@,
            in_markdown,
            in_structured,
        ),
        r matches Ok(md) ==> (fields_view(md.frontmatter@), md.body@) == created_markdown(
            kind,
            fields_view(config@),
        ),
{
    if in_markdown {
        let head = message_of(kind_label_of(kind), " ", name);
        let message = head.concat(" already exists as .md file");
        return Err(message);
    }
    if in_structured {
        let head = message_of(kind_label_of(kind), " ", name);
        let message = head.concat(" already exists in opencode.json");
        return Err(message);
    }
    let mut frontmatter = config;
    let body = match find_field(&frontmatter, content_field_name(kind)) {
        Some(i) => content_of(&frontmatter[i].value),
        None => String::new(),
    };
    remove_field(&mut frontmatter, content_field_name(kind));
    Ok(MarkdownEntity { frontmatter, body })
}

/// Creates an agent as a markdown file.
pub fn create_agent(name: &str, in_markdown: bool, in_structured: bool, config: Vec<Field>) -> (r:
    Result<MarkdownEntity, String>)
    ensures
        r is Ok <==> !in_markdown && !in_structured,
        r matches Err(message) ==> Some(message@) == create_conflict(
            EntityKind::Agent,
            name@,
            in_markdown,
            in_structured,
        ),
        r matches Ok(md) ==> (fields_view(md.frontmatter@), md.body@) == created_markdown(
            EntityKind::Agent,
            fields_view(config@),
        ),
{
    plan_create(EntityKind::Agent, name, in_markdown, in_structured, config)
}

/// Creates a command as a markdown file.
pub fn create_command(name: &str, in_markdown: bool, in_structured: bool, config: Vec<Field>) -> (r:
    Result<MarkdownEntity, String>)
    ensures
        r is Ok <==> !in_markdown && !in_structured,
        r matches Err(message) ==> Some(message@) == create_conflict(
            EntityKind::Command,
            name@,
            in_markdown,
            in_structured,
        ),
        r matches Ok(md) ==> (fields_view(md.frontmatter@), md.body@) == created_markdown(
            EntityKind::Command,
            fields_view(config@),
        ),
{
    plan_create(EntityKind::Command, name, in_markdown, in_structured, config)
}

/// What the deletion of an entity does.
#[derive(Clone, Copy, Debug, PartialEq, Eq, Structural)]
pub struct DeletePlan {
    /// Remove the markdown file.
    pub remove_markdown: bool,
    /// Remove the entity's section of the structured file.
    pub remove_structured: bool,
    /// Write a section that disables the built-in entity.
    pub disable_built_in: bool,
}

/// The deletion of an entity: it leaves whichever store defines it. One
/// that neither store defines is built in, and is disabled by a section of
/// the structured file; this holds of agents and of commands alike.
pub open spec fn delete_plan(kind: EntityKind, in_markdown: bool, in_structured: bool)
    -> DeletePlan {
    DeletePlan {
        remove_markdown: in_markdown,
        remove_structured: in_structured,
        disable_built_in: !in_markdown && !in_structured,
    }
}

/// Plans the deletion of an entity.
pub fn plan_delete(kind: EntityKind, in_markdown: bool, in_structured: bool) -> (r: DeletePlan)
    ensures
        r == delete_plan(kind, in_markdown, in_structured),
{
    DeletePlan {
        remove_markdown: in_markdown,
        remove_structured: in_structured,
        disable_built_in: !in_markdown && !in_structured,
    }
}

/// Plans the deletion of an agent.
pub fn delete_agent(in_markdown: bool, in_structured: bool) -> (r: DeletePlan)
    ensures
        r == delete_plan(EntityKind::Agent, in_markdown, in_structured),
{
    plan_delete(EntityKind::Agent, in_markdown, in_structured)
}

/// Plans the deletion of a command.
pub fn delete_command(in_markdown: bool, in_structured: bool) -> (r: DeletePlan)
    ensures
        r == delete_plan(EntityKind::Command, in_markdown, in_structured),
{
    plan_delete(EntityKind::Command, in_markdown, in_structured)
}

/// The section of the structured file that disables a built-in entity:
/// the one field `disable`, set to `true`.
pub fn disabling_section() -> (r: Vec<Field>)
    ensures
        fields_view(r@) == seq![("disable"@, ValueView::Other("true"@))],
{
    let mut section: Vec<Field> = Vec::new();
    section.push(
        Field { name: "disable".to_owned(), value: FieldValue::Other("true".to_owned()) },
    );
    assert(fields_view(section@) =~= seq![("disable"@, ValueView::Other("true"@))]);
    section
}

/// The names of a list of fields.
pub open spec fn field_names(fields: Seq<(Seq<char>, ValueView)>) -> Seq<Seq<char>> {
    Seq::new(fields.len(), |i: int| fields[i].0)
}

/// The field names that the markdown file defines: those of its
/// frontmatter, and the content field where its body is not blank.
pub open spec fn markdown_field_names(
    kind: EntityKind,
    frontmatter: Seq<(Seq<char>, ValueView)>,
    body: Seq<char>,
) -> Seq<Seq<char>> {
    if trim_seq(body).len() > 0 {
        field_names(frontmatter).push(content_field(kind))
    } else {
        field_names(frontmatter)
    }
}

/// The names of the fields in a list.
pub fn names_of(fields: &Vec<Field>) -> (r: Vec<String>)
    ensures
        strings_view(r@) == field_names(fields_view(fields@)),
{
    let mut out: Vec<String> = Vec::new();
    let mut i: usize = 0;
    let ghost all = field_names(fields_view(fields@));
    while i < fields.len()
        invariant
            i <= fields.len(),
            all == field_names(fields_view(fields@)),
            strings_view(out@) == all.take(i as int),
        decreases fields.len() - i,
    {
        let ghost before = strings_view(out@);
        let name = fields[i].name.clone();
        out.push(name);
        i += 1;
        assert(strings_view(out@) =~= before.push(fields@[i - 1].name@));
        assert(strings_view(out@) =~= all.take(i as int));
    }
    assert(all.take(fields.len() as int) =~= all);
    out
}

/// The field names that a markdown file defines.
pub fn markdown_fields(kind: EntityKind, md: &MarkdownEntity) -> (r: Vec<String>)
    ensures
        strings_view(r@) == markdown_field_names(kind, fields_view(md.frontmatter@), md.body@),
{
    let mut out = names_of(&md.frontmatter);
    let body = trim_chars(&chars_of(md.body.as_str()));
    if body.len() > 0 {
        let ghost before = strings_view(out@);
        out.push(content_field_name(kind).to_owned());
        assert(strings_view(out@) =~= before.push(content_field(kind)));
    }
    out
}


/// A field that was removed is gone, and the other fields are as before.
pub proof fn lemma_without(fields: Seq<(Seq<char>, ValueView)>, name: Seq<char>, other: Seq<char>)
    ensures
        lookup(without(fields, name), name) is None,
        other != name ==> lookup(without(fields, name), other) == lookup(fields, other),
    decreases fields.len(),
{
    if fields.len() > 0 {
        lemma_without(fields.drop_last(), name, other);
        if fields.last().0 != name {
            assert(without(fields, name).drop_last() =~= without(fields.drop_last(), name));
        }
    }
}

/// A field that was set has its value, and the other fields are as
/// before.
pub proof fn lemma_put(
    fields: Seq<(Seq<char>, ValueView)>,
    name: Seq<char>,
    value: ValueView,
    other: Seq<char>,
)
    ensures
        lookup(put(fields, name, value), name) == Some(value),
        other != name ==> lookup(put(fields, name, value), other) == lookup(fields, other),
{
    lemma_without(fields, name, other);
    assert(put(fields, name, value).drop_last() =~= without(fields, name));
}

/// An update with `null` removes the field from wherever it is: after it
/// neither store defines the field, whatever the kind of the entity and
/// whatever the stored content refers to.
pub proof fn lemma_null_removes_everywhere(
    kind: EntityKind,
    p: PlanView,
    field: Seq<char>,
    reference: ReferenceView,
)
    requires
        !p.failed,
    ensures
        ({
            let after = apply_update(kind, p, field, ValueView::Null, reference);
            &&& lookup(after.stores.structured, field) is None
            &&& after.stores.markdown matches Some(md) ==> lookup(md.0, field) is None
            &&& after.stores.markdown is Some <==> p.stores.markdown is Some
            &&& after.file_writes == p.file_writes
        }),
{
    lemma_without(p.stores.structured, field, field);
    if p.stores.markdown is Some {
        let md = p.stores.markdown->0;
        lemma_without(md.0, field, field);
    }
}

/// An update of a field other than the content field, with a value other
/// than `null`, defines the field with that value in exactly one place: in
/// the markdown frontmatter where that defined it before or where the
/// entity lives in markdown alone, else in the structured section. The other
/// store is left as it was.
pub proof fn lemma_field_update_lands_in_one_store(
    kind: EntityKind,
    p: PlanView,
    field: Seq<char>,
    value: ValueView,
    reference: ReferenceView,
)
    requires
        !p.failed,
        !(value is Null),
        field != content_field(kind),
    ensures
        ({
            let after = apply_update(kind, p, field, value, reference);
            let to_markdown = p.stores.markdown matches Some(md) && (lookup(md.0, field) is Some
                || p.stores.structured.len() == 0);
            &&& to_markdown ==> (after.stores.markdown matches Some(md) && lookup(md.0, field)
                == Some(value)) && after.stores.structured == p.stores.structured
                && after.markdown_modified
            &&& !to_markdown ==> lookup(after.stores.structured, field) == Some(value)
                && after.stores.markdown == p.stores.markdown && after.structured_modified
        }),
{
    lemma_put(p.stores.structured, field, value, field);
    if p.stores.markdown is Some {
        let md = p.stores.markdown->0;
        lemma_put(md.0, field, value, field);
    }
}

} // verus!
