use caesura::derive::{
    all_commands, doc_string, FieldError, extract_parent_attr, resolve_variant, CommandRef, forwarded_attrs, get_partial_name, has_default_fn, parse_field,
    parse_variant, required_names, type_display, DefaultValueSource, EnumAttr, FieldAttr, FieldDefault,
    FieldInit, FieldOption, TypeShape, VariantAttr,
};
use caesura::derive::{merge_field, merge_fields, resolve_outcome, ArgAttr, FieldPresence};
use caesura::options::rules::OptionRule;
use caesura::naming::{
    cli_flag, effective_cli_name, field_name_for, field_name_for_error, normalize_token_string,
    partial_type_for, replace, to_snake_case,
};

#[test]
fn to_snake_case_splits_on_each_uppercase_letter() {
    assert_eq!(to_snake_case("ConfigOptions"), "config_options");
    assert_eq!(to_snake_case("HTMLParser"), "h_t_m_l_parser");
    assert_eq!(to_snake_case("already_snake"), "already_snake");
    assert_eq!(to_snake_case(""), "");
    assert_eq!(field_name_for("SharedOptions"), "shared_options");
    assert_eq!(partial_type_for("SharedOptions"), "SharedOptionsPartial");
}

#[test]
fn effective_cli_name_prefers_override() {
    assert_eq!(effective_cli_name("Queue", &None), "queue");
    assert_eq!(effective_cli_name("QueueAdd", &Some("add".to_owned())), "add");
}

#[test]
fn cli_flag_forms() {
    assert_eq!(cli_flag("indexer_url", Some("url"), false), "--url");
    assert_eq!(cli_flag("indexer_url", Some(""), false), "--indexer-url");
    assert_eq!(cli_flag("indexer_url", None, true), "");
    assert_eq!(cli_flag("indexer_url", None, false), "--indexer-url");
}

#[test]
fn field_name_for_error_is_readable() {
    assert_eq!(field_name_for_error("indexer_url"), "Indexer url");
    assert_eq!(field_name_for_error("x"), "X");
    assert_eq!(field_name_for_error(""), "");
    assert_eq!(field_name_for_error("_a"), " a");
}

#[test]
fn normalize_token_string_removes_spacing() {
    assert_eq!(normalize_token_string("std :: path :: PathBuf :: from (\"x\")"), "std::path::PathBuf::from(\"x\")");
    assert_eq!(normalize_token_string("vec ! [1 , 2]"), "vec![1 , 2]");
    assert_eq!(normalize_token_string("plain"), "plain");
    assert_eq!(replace("aaa", "aa", "b"), "ba");
}

#[test]
fn parse_field_reads_attributes() {
    let attrs = vec![
        FieldAttr::Doc,
        FieldAttr::Options(vec![FieldOption::Default("1".to_owned()), FieldOption::Required]),
        FieldAttr::Arg,
        FieldAttr::Other,
        FieldAttr::Serde,
        FieldAttr::Options(vec![
            FieldOption::Default("2".to_owned()),
            FieldOption::DefaultFn("compute".to_owned()),
            FieldOption::DefaultDoc("computed".to_owned()),
            FieldOption::Other,
        ]),
        FieldAttr::Doc,
    ];
    let field = parse_field(Some("limit"), Some("Option"), &attrs).expect("named field");
    assert_eq!(field.ident, "limit");
    assert!(field.is_option);
    assert!(!field.is_bool);
    assert!(field.is_required);
    assert_eq!(field.default_value, Some("2".to_owned()));
    assert_eq!(field.default_fn, Some("compute".to_owned()));
    assert_eq!(field.default_doc, Some("computed".to_owned()));
    assert_eq!(field.arg_attrs, vec![2]);
    assert_eq!(field.serde_attrs, vec![4]);
    assert_eq!(field.doc_attrs, vec![0, 6]);
    assert_eq!(field.default_text(), Some("2".to_owned()));
    assert_eq!(field.default_value_source(), DefaultValueSource::Expression);
    assert_eq!(field.field_init(), FieldInit::OrElseDefault);
    assert_eq!(field.field_default(), FieldDefault::Nothing);
}

#[test]
fn parse_field_defaults() {
    let flag = parse_field(Some("dry_run"), Some("bool"), &Vec::new()).expect("named field");
    assert!(flag.is_bool && !flag.is_option && !flag.is_required);
    assert_eq!(flag.default_text(), Some("false".to_owned()));
    assert_eq!(flag.default_value_source(), DefaultValueSource::False);
    assert_eq!(flag.field_init(), FieldInit::UnwrapOrDefault);
    assert_eq!(flag.field_default(), FieldDefault::TypeDefault);
    let tuple = parse_field(Some("pair"), None, &vec![FieldAttr::Options(vec![FieldOption::DefaultDoc("d".to_owned())])]).expect("named field");
    assert!(!tuple.is_option && !tuple.is_bool);
    assert_eq!(tuple.default_text(), Some("d".to_owned()));
    assert_eq!(tuple.default_value_source(), DefaultValueSource::TypeDefault);
    let opt = parse_field(Some("o"), Some("Option"), &Vec::new()).expect("named field");
    assert_eq!(opt.default_text(), None);
    assert_eq!(opt.default_value_source(), DefaultValueSource::Absent);
    assert_eq!(opt.field_init(), FieldInit::AsIs);
    let value = parse_field(Some("v"), Some("u8"), &vec![FieldAttr::Options(vec![FieldOption::Default("vec ! [1]".to_owned())])]).expect("named field");
    assert_eq!(value.field_init(), FieldInit::UnwrapOrElseDefault);
    assert_eq!(value.field_default(), FieldDefault::Expression);
    assert_eq!(value.default_text(), Some("vec![1]".to_owned()));
}

#[test]
fn required_names_and_default_fn() {
    let required = parse_field(Some("api_key"), Some("Option"), &vec![FieldAttr::Options(vec![FieldOption::Required])]).expect("named field");
    let computed = parse_field(Some("output"), Some("Option"), &vec![FieldAttr::Options(vec![FieldOption::DefaultFn("f".to_owned())])]).expect("named field");
    let plain = parse_field(Some("verbose"), Some("bool"), &Vec::new()).expect("named field");
    let fields = vec![required, plain.clone(), computed];
    assert_eq!(required_names(&fields), vec!["Api key".to_owned()]);
    assert!(has_default_fn(&fields));
    assert!(!has_default_fn(&vec![plain]));
}

#[test]
fn doc_strings_are_trimmed_and_joined() {
    let docs = vec![
        Some(" First line. ".to_owned()),
        Some("   ".to_owned()),
        None,
        Some("Second line.".to_owned()),
    ];
    assert_eq!(doc_string(&docs, "<br>"), "First line.<br>Second line.");
    assert_eq!(doc_string(&docs, "\n"), "First line.\nSecond line.");
    assert_eq!(doc_string(&Vec::new(), "\n"), "");
}

#[test]
fn types_are_displayed() {
    let ty = TypeShape::Path(
        "Option".to_owned(),
        Some(Box::new(TypeShape::Path(
            "Vec".to_owned(),
            Some(Box::new(TypeShape::Path("PathBuf".to_owned(), None))),
        ))),
    );
    assert_eq!(type_display(&ty), "Option<Vec<PathBuf>>");
    let ty = TypeShape::Path("HashMap".to_owned(), Some(Box::new(TypeShape::Path("String".to_owned(), None))));
    assert_eq!(type_display(&ty), "HashMap");
    assert_eq!(type_display(&TypeShape::Tokens("(u8 , u8)".to_owned())), "(u8 , u8)");
}

#[test]
fn partial_name_override() {
    assert_eq!(get_partial_name(&None, "SharedOptions"), "SharedOptionsPartial");
    assert_eq!(get_partial_name(&Some("Custom".to_owned()), "SharedOptions"), "Custom");
}

#[test]
fn parse_variant_reads_attributes() {
    let attrs = vec![
        VariantAttr::Doc,
        VariantAttr::Options(vec!["SharedOptions".to_owned(), "CacheOptions".to_owned()]),
        VariantAttr::CliName(Some("add".to_owned())),
        VariantAttr::Command,
        VariantAttr::Options(vec!["QueueAddArgs".to_owned()]),
        VariantAttr::CliName(None),
        VariantAttr::Other,
    ];
    let variant = parse_variant("QueueAdd", None, &attrs);
    assert_eq!(variant.name, "QueueAdd");
    assert_eq!(variant.doc_attrs, vec![0]);
    assert_eq!(variant.command_attrs, vec![3]);
    assert_eq!(
        variant.options,
        vec!["SharedOptions".to_owned(), "CacheOptions".to_owned(), "QueueAddArgs".to_owned()]
    );
    assert_eq!(variant.cli_name, Some("add".to_owned()));
    assert_eq!(variant.sub_enum, None);
    let variant = parse_variant("Queue", Some("QueueCommand".to_owned()), &Vec::new());
    assert_eq!(variant.sub_enum, Some("QueueCommand".to_owned()));
    assert_eq!(variant.cli_name, None);
}

#[test]
fn enum_attributes() {
    let attrs = vec![
        EnumAttr::Other,
        EnumAttr::Derive,
        EnumAttr::CommandEnum(None),
        EnumAttr::CommandEnum(Some("Command".to_owned())),
        EnumAttr::CommandEnum(Some("Other".to_owned())),
        EnumAttr::Other,
    ];
    assert_eq!(extract_parent_attr(&attrs), Some("Command".to_owned()));
    assert_eq!(extract_parent_attr(&vec![EnumAttr::Derive]), None);
    assert_eq!(forwarded_attrs(&attrs), vec![0, 5]);
}

#[test]
fn variant_names_and_fields() {
    let queue = parse_variant("Queue", Some("QueueCommand".to_owned()), &Vec::new());
    let add = parse_variant(
        "QueueAdd",
        None,
        &vec![
            VariantAttr::CliName(Some("add".to_owned())),
            VariantAttr::Options(vec!["SharedOptions".to_owned(), "CacheOptions".to_owned()]),
        ],
    );
    assert_eq!(queue.cli_name(), "queue");
    assert_eq!(add.cli_name(), "add");
    assert_eq!(add.sub_doc_name("queue"), "queue add");
    assert_eq!(
        add.variant_fields(),
        vec![
            ("shared_options".to_owned(), "SharedOptionsPartial".to_owned()),
            ("cache_options".to_owned(), "CacheOptionsPartial".to_owned()),
        ]
    );
    let variants = vec![queue, add.clone(), add];
    assert_eq!(resolve_variant(&variants, "add"), Some(1));
    assert_eq!(resolve_variant(&variants, "queue"), Some(0));
    assert_eq!(resolve_variant(&variants, "nope"), None);
}

#[test]
fn all_commands_expand_sub_enums() {
    let all = all_commands(&vec![None, Some(2), None, Some(0)]);
    assert_eq!(
        all,
        vec![
            CommandRef { variant: 0, sub: None },
            CommandRef { variant: 1, sub: Some(0) },
            CommandRef { variant: 1, sub: Some(1) },
            CommandRef { variant: 2, sub: None },
        ]
    );
}

#[test]
fn parse_field_errors() {
    assert_eq!(parse_field(None, Some("u8"), &Vec::new()).unwrap_err(), FieldError::Unnamed);
    assert_eq!(
        parse_field(None, Some("u8"), &vec![FieldAttr::Malformed]).unwrap_err(),
        FieldError::Unnamed
    );
    let attrs = vec![FieldAttr::Doc, FieldAttr::Malformed, FieldAttr::Options(vec![]), FieldAttr::Malformed];
    assert_eq!(parse_field(Some("x"), None, &attrs).unwrap_err(), FieldError::MalformedOptions(1));
}

#[test]
fn resolve_reports_unset_required_fields_then_validation() {
    let api_key = parse_field(Some("api_key"), Some("Option"), &vec![FieldAttr::Options(vec![FieldOption::Required])]).expect("named");
    let output = parse_field(
        Some("output_dir"),
        Some("Option"),
        &vec![FieldAttr::Options(vec![FieldOption::Required, FieldOption::DefaultFn("f".to_owned())])],
    )
    .expect("named");
    let verbose = parse_field(Some("verbose"), Some("bool"), &Vec::new()).expect("named");
    let fields = vec![api_key, output, verbose];
    let empty = FieldPresence { value_set: false, default_set: false };
    let defaulted = FieldPresence { value_set: false, default_set: true };
    let set = FieldPresence { value_set: true, default_set: false };
    let extra = vec![OptionRule::IsEmpty("content".to_owned())];
    assert!(resolve_outcome(&fields, &vec![empty, empty, empty], false, extra.clone()).is_ok());
    let errors = resolve_outcome(&fields, &vec![empty, empty, set], true, extra.clone()).unwrap_err();
    let messages: Vec<String> = errors.iter().map(|e| e.to_string()).collect();
    assert_eq!(
        messages,
        vec!["Api key is not set", "Output dir is not set", "content must have at least one value"]
    );
    let errors = resolve_outcome(&fields, &vec![set, defaulted, empty], true, extra).unwrap_err();
    assert_eq!(errors.len(), 1);
    assert!(resolve_outcome(&fields, &vec![set, defaulted, empty], true, Vec::new()).is_ok());
}

#[test]
fn default_subcommand_attributes() {
    let queue = parse_variant("Queue", Some("QueueCommand".to_owned()), &Vec::new());
    assert!(queue.needs_default_subcommand_attrs());
    let custom = parse_variant("Queue", Some("QueueCommand".to_owned()), &vec![VariantAttr::Command]);
    assert!(!custom.needs_default_subcommand_attrs());
    let plain = parse_variant("Verify", None, &Vec::new());
    assert!(!plain.needs_default_subcommand_attrs());
}

#[test]
fn merge_keeps_set_values_and_fills_gaps() {
    assert_eq!(merge_field(Some(1), Some(2)), Some(1));
    assert_eq!(merge_field(None, Some(2)), Some(2));
    assert_eq!(merge_field::<u8>(None, None), None);
    assert_eq!(merge_field(Some(3), None), Some(3));
    let mut cli = vec![Some("cli".to_owned()), None, None, Some("x".to_owned())];
    let file = vec![Some("file".to_owned()), Some("yaml".to_owned()), None, None];
    merge_fields(&mut cli, file);
    assert_eq!(
        cli,
        vec![Some("cli".to_owned()), Some("yaml".to_owned()), None, Some("x".to_owned())]
    );
    let mut empty: Vec<Option<u8>> = Vec::new();
    merge_fields(&mut empty, Vec::new());
    assert!(empty.is_empty());
}

#[test]
fn partial_field_arguments_and_docs() {
    let flag = parse_field(Some("dry_run"), Some("bool"), &Vec::new()).expect("named field");
    assert_eq!(flag.arg_attr(), ArgAttr::SetTrueFlag("dry-run".to_owned()));
    assert!(flag.partial_wraps_in_option());
    assert_eq!(flag.forwarded_serde_attrs(), None);
    assert_eq!(flag.default_doc_line(), Some(" Default: `false`".to_owned()));
    let attrs = vec![FieldAttr::Arg, FieldAttr::Serde, FieldAttr::Doc];
    let forwarded = parse_field(Some("output_dir"), Some("Option"), &attrs).expect("named field");
    assert_eq!(forwarded.arg_attr(), ArgAttr::Forwarded(vec![0]));
    assert_eq!(forwarded.forwarded_serde_attrs(), Some(vec![1]));
    assert!(!forwarded.partial_wraps_in_option());
    assert_eq!(forwarded.default_doc_line(), None);
    let plain = parse_field(Some("max_file_size"), Some("u64"), &Vec::new()).expect("named field");
    assert_eq!(plain.arg_attr(), ArgAttr::Long("max-file-size".to_owned()));
    assert!(plain.partial_wraps_in_option());
}
