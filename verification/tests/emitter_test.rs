use cs_ts::generator::typescript::BUILTINS;
use cs_ts::generator::{Field, FieldConfig, GenerateConfig, Generator, TypescriptGenerator};

fn named(name: &str) -> FieldConfig {
    FieldConfig {
        name: name.to_string(),
        ..Default::default()
    }
}

fn all_kinds(config: fn() -> FieldConfig) -> Vec<Field> {
    vec![
        Field::Text(config()),
        Field::Number(config()),
        Field::Date(config()),
        Field::Bool(config()),
        Field::File(config()),
        Field::Link(config()),
        Field::Json(config()),
        Field::Reference(config()),
        Field::Global(config()),
        Field::Blocks(config()),
        Field::Group(config()),
    ]
}

#[test]
fn default_config_is_empty() {
    let config = FieldConfig::default();
    assert_eq!(config.name, "");
    assert!(!config.optional);
    assert!(!config.multiple);
    assert!(config.description.is_none());
    assert!(config.enumeration.is_none());
    assert!(config.reference_to.is_empty());
    assert!(config.fields.is_empty());
    assert!(config.block_types.is_none());
}

#[test]
fn plain_kinds_use_their_types() {
    let generator = TypescriptGenerator::new(None, None);
    assert_eq!(generator.generate_text(&named("a")), "a: string;");
    assert_eq!(generator.generate_number(&named("a")), "a: number;");
    assert_eq!(generator.generate_date(&named("a")), "a: string;");
    assert_eq!(generator.generate_bool(&named("a")), "a: boolean;");
    assert_eq!(generator.generate_file(&named("a")), "a: ContentstackFile;");
    assert_eq!(generator.generate_link(&named("a")), "a: ContentstackLink;");
    assert_eq!(generator.generate_json(&named("a")), "a: ContentstackJson;");
    assert_eq!(generator.generate_reference(&named("a")), "a: any;");
    assert_eq!(generator.generate_global_field(&named("a")), "a: any;");
    assert_eq!(generator.generate_group(&named("a")), "a: any;");
    assert_eq!(generator.generate_blocks(&named("a")), "a: Array<any>;");
}

#[test]
fn optional_marker_follows_the_flag_for_every_kind() {
    let generator = TypescriptGenerator::new(None, None);
    fn required() -> FieldConfig {
        FieldConfig {
            name: "f".to_string(),
            multiple: true,
            enumeration: Some(vec!["x".to_string()]),
            ..Default::default()
        }
    }
    fn optional() -> FieldConfig {
        FieldConfig {
            optional: true,
            ..required()
        }
    }
    let plain = all_kinds(required);
    let marked = all_kinds(optional);
    for (p, m) in plain.iter().zip(marked.iter()) {
        let p = generator.generate_field(p);
        let m = generator.generate_field(m);
        assert!(p.starts_with("f: "));
        assert!(m.starts_with("f?: "));
        assert_eq!(p[3..], m[4..]);
    }
}

#[test]
fn multiple_wraps_the_single_type_once() {
    let generator = TypescriptGenerator::new(None, None);
    fn single() -> FieldConfig {
        FieldConfig {
            name: "f".to_string(),
            enumeration: Some(vec!["1".to_string(), "2".to_string()]),
            reference_to: vec!["tag".to_string(), "blog_post".to_string()],
            fields: vec![Field::Bool(FieldConfig {
                name: "inner".to_string(),
                ..Default::default()
            })],
            ..Default::default()
        }
    }
    fn several() -> FieldConfig {
        FieldConfig {
            multiple: true,
            ..single()
        }
    }
    let ones = all_kinds(single);
    let many = all_kinds(several);
    for (one, more) in ones.iter().zip(many.iter()) {
        let one_line = generator.generate_field(one);
        let more_line = generator.generate_field(more);
        let one_type = &one_line["f: ".len()..one_line.len() - 1];
        if let Field::Blocks(_) = one {
            assert_eq!(one_line, more_line);
            assert!(one_type.starts_with("Array<"));
        } else {
            assert_eq!(more_line, format!("f: Array<{}>;", one_type));
        }
    }
}

#[test]
fn text_choices_are_quoted() {
    let generator = TypescriptGenerator::new(None, None);
    let config = FieldConfig {
        name: "name".to_string(),
        enumeration: Some(vec!["one".to_string(), "two".to_string()]),
        ..Default::default()
    };
    assert_eq!(generator.generate_text(&config), "name: 'one' | 'two';");
    let several = FieldConfig {
        multiple: true,
        ..config
    };
    assert_eq!(
        generator.generate_text(&several),
        "name: Array<'one' | 'two'>;"
    );
}

#[test]
fn number_choices_are_bare() {
    let generator = TypescriptGenerator::new(None, None);
    let config = FieldConfig {
        name: "name".to_string(),
        enumeration: Some(vec!["1".to_string(), "2".to_string()]),
        ..Default::default()
    };
    assert_eq!(generator.generate_number(&config), "name: 1 | 2;");
}

#[test]
fn empty_enumeration_gives_an_empty_union() {
    let generator = TypescriptGenerator::new(None, None);
    let config = FieldConfig {
        name: "name".to_string(),
        enumeration: Some(vec![]),
        ..Default::default()
    };
    assert_eq!(generator.generate_text(&config), "name: ;");
    assert_eq!(generator.generate_number(&config), "name: ;");
}

#[test]
fn reference_without_targets_is_any() {
    let generator = TypescriptGenerator::new(None, None);
    let config = FieldConfig {
        name: "ref".to_string(),
        multiple: true,
        ..Default::default()
    };
    assert_eq!(generator.generate_reference(&config), "ref: Array<any>;");
}

#[test]
fn reference_with_targets_is_one_union_in_one_array() {
    let generator = TypescriptGenerator::new(None, None);
    let config = FieldConfig {
        name: "tags".to_string(),
        optional: true,
        multiple: true,
        reference_to: vec!["tag".to_string(), "category".to_string()],
        ..Default::default()
    };
    assert_eq!(
        generator.generate_reference(&config),
        "tags?: Array<Tag | { _content_type_uid: 'tag'; uid: string; } | \
         Category | { _content_type_uid: 'category'; uid: string; }>;"
    );
}

#[test]
fn reference_stub_keeps_the_raw_name() {
    let generator = TypescriptGenerator::new(Some("I"), Some("Type"));
    let config = FieldConfig {
        name: "author".to_string(),
        reference_to: vec!["blog_author".to_string()],
        ..Default::default()
    };
    assert_eq!(
        generator.generate_reference(&config),
        "author: BlogAuthor | { _content_type_uid: 'blog_author'; uid: string; };"
    );
}

#[test]
fn global_field_is_the_union_of_type_names() {
    let generator = TypescriptGenerator::new(None, None);
    let config = FieldConfig {
        name: "seo".to_string(),
        reference_to: vec!["seo_settings".to_string(), "open-graph".to_string()],
        ..Default::default()
    };
    assert_eq!(
        generator.generate_global_field(&config),
        "seo: SeoSettings | OpenGraph;"
    );
    let several = FieldConfig {
        multiple: true,
        ..config
    };
    assert_eq!(
        generator.generate_global_field(&several),
        "seo: Array<SeoSettings | OpenGraph>;"
    );
}

#[test]
fn group_is_an_inline_record() {
    let generator = TypescriptGenerator::new(None, None);
    let config = FieldConfig {
        name: "address".to_string(),
        fields: vec![Field::Text(named("street")), Field::Text(named("city"))],
        ..Default::default()
    };
    assert_eq!(
        generator.generate_group(&config),
        "address: {\n  street: string;\n  city: string;\n};"
    );
    let several = FieldConfig {
        multiple: true,
        optional: true,
        ..config
    };
    assert_eq!(
        generator.generate_group(&several),
        "address?: Array<{\n  street: string;\n  city: string;\n}>;"
    );
}

#[test]
fn nested_groups_indent_once_for_each_level() {
    let generator = TypescriptGenerator::new(None, None);
    let inner = FieldConfig {
        name: "geo".to_string(),
        description: Some("Where it is".to_string()),
        fields: vec![Field::Number(named("lat")), Field::Number(named("lon"))],
        ..Default::default()
    };
    let outer = FieldConfig {
        name: "address".to_string(),
        fields: vec![Field::Text(named("street")), Field::Group(inner)],
        ..Default::default()
    };
    assert_eq!(
        generator.generate_group(&outer),
        "address: {\n  street: string;\n  /** Where it is */\n  geo: {\n    lat: number;\n    lon: number;\n  };\n};"
    );
}

#[test]
fn blocks_without_variants_are_a_list_of_any() {
    let generator = TypescriptGenerator::new(None, None);
    let empty = FieldConfig {
        name: "sections".to_string(),
        multiple: false,
        block_types: Some(vec![]),
        ..Default::default()
    };
    assert_eq!(generator.generate_blocks(&empty), "sections: Array<any>;");
    let absent = FieldConfig {
        name: "sections".to_string(),
        multiple: true,
        block_types: None,
        ..Default::default()
    };
    assert_eq!(generator.generate_blocks(&absent), "sections: Array<any>;");
}

#[test]
fn blocks_have_one_property_for_each_variant() {
    let generator = TypescriptGenerator::new(None, None);
    let config = FieldConfig {
        name: "sections".to_string(),
        block_types: Some(vec![
            (
                "hero".to_string(),
                vec![Field::Text(named("title")), Field::File(named("image"))],
            ),
            ("divider".to_string(), vec![]),
        ]),
        ..Default::default()
    };
    assert_eq!(
        generator.generate_blocks(&config),
        "sections: Array<{\n  hero: {\n    title: string;\n    image: ContentstackFile;\n  };\n  divider: {\n  };\n}>;"
    );
}

#[test]
fn blocks_ignore_the_fields_of_a_group() {
    let generator = TypescriptGenerator::new(None, None);
    let config = FieldConfig {
        name: "sections".to_string(),
        fields: vec![Field::Text(named("unused"))],
        ..Default::default()
    };
    assert_eq!(generator.generate_blocks(&config), "sections: Array<any>;");
}

#[test]
fn blank_description_gives_no_comment() {
    let generator = TypescriptGenerator::new(None, None);
    assert_eq!(generator.get_jsdoc(Some("   ")), "");
    assert_eq!(generator.get_jsdoc(Some("")), "");
    assert_eq!(generator.get_jsdoc(Some(" \t\n")), "");
    assert_eq!(generator.get_jsdoc(None), "");
    let config = FieldConfig {
        name: "title".to_string(),
        description: Some("   ".to_string()),
        ..Default::default()
    };
    assert_eq!(generator.generate_text(&config), "title: string;");
}

#[test]
fn description_stands_untrimmed_in_one_comment_line() {
    let generator = TypescriptGenerator::new(None, None);
    assert_eq!(generator.get_jsdoc(Some("Title")), "/** Title */\n");
    assert_eq!(generator.get_jsdoc(Some("  Title ")), "/**   Title  */\n");
    let config = FieldConfig {
        name: "title".to_string(),
        optional: true,
        description: Some("The title".to_string()),
        ..Default::default()
    };
    assert_eq!(
        generator._generate_field_type(&config),
        "/** The title */\ntitle?: "
    );
}

#[test]
fn multiple_marker_wraps_or_keeps() {
    let generator = TypescriptGenerator::new(None, None);
    assert_eq!(generator.get_mulitple_marker(true, "string"), "Array<string>");
    assert_eq!(generator.get_mulitple_marker(false, "string"), "string");
    assert_eq!(generator.get_mulitple_marker(true, ""), "Array<>");
}

#[test]
fn type_name_is_the_normalized_name() {
    let generator = TypescriptGenerator::new(Some("I"), Some("X"));
    assert_eq!(generator.get_type_name("blog_post"), "BlogPost");
}

#[test]
fn interface_declares_the_fields_of_a_schema() {
    let generator = TypescriptGenerator::new(None, None);
    let config = GenerateConfig {
        name: "blog_post".to_string(),
        description: Some("A post".to_string()),
        fields: vec![
            Field::Text(named("title")),
            Field::Group(FieldConfig {
                name: "seo".to_string(),
                optional: true,
                fields: vec![Field::Text(named("keywords"))],
                ..Default::default()
            }),
        ],
    };
    assert_eq!(
        generator.generate_interface(&config),
        "/** A post */\nexport interface BlogPost {\n  _content_type_uid: 'blog_post'\n  title: string;\n  seo?: {\n    keywords: string;\n  };\n}"
    );
}

#[test]
fn interface_without_fields_has_only_its_tag() {
    let generator = TypescriptGenerator::new(None, None);
    let config = GenerateConfig {
        name: "empty".to_string(),
        description: Some(" ".to_string()),
        fields: vec![],
    };
    assert_eq!(
        generator.generate_interface(&config),
        "export interface Empty {\n  _content_type_uid: 'empty'\n}"
    );
}

#[test]
fn prefix_and_postfix_go_around_top_level_names_only() {
    let generator = TypescriptGenerator::new(Some("I"), Some("Entry"));
    let config = GenerateConfig {
        name: "blog_post".to_string(),
        description: None,
        fields: vec![Field::Global(FieldConfig {
            name: "seo".to_string(),
            reference_to: vec!["seo_settings".to_string()],
            ..Default::default()
        })],
    };
    assert_eq!(
        generator.generate_interface(&config),
        "export interface IBlogPostEntry {\n  _content_type_uid: 'blog_post'\n  seo: SeoSettings;\n}"
    );
}

#[test]
fn builtins_declare_the_supporting_types() {
    let generator = TypescriptGenerator::new(None, None);
    let expected = [
        "export interface ContentstackFile {\n",
        "  uid: string;\n",
        "  created_at: string;\n",
        "  updated_at: string;\n",
        "  created_by: string;\n",
        "  updated_by: string;\n",
        "  content_type: string;\n",
        "  file_size: string;\n",
        "  tags: string[];\n",
        "  filename: string;\n",
        "  url: string;\n",
        "  ACL: any[] | object;\n",
        "  is_dir: boolean;\n",
        "  parent_uid: string;\n",
        "  _version: number;\n",
        "  title: string;\n",
        "  _metadata?: object;\n",
        "  description?: string;\n",
        "  dimension?: {\n",
        "    height: number;\n",
        "    width: number;\n",
        "  };\n",
        "  publish_details: PublishDetails;\n",
        "}\n",
        "\n",
        "export interface PublishDetails {\n",
        "  environment: string;\n",
        "  locale: string;\n",
        "  time: string;\n",
        "  user: string;\n",
        "}\n",
        "\n",
        "export interface ContentstackLink {\n",
        "  title: string;\n",
        "  href: string;\n",
        "}\n",
        "\n",
        "export interface ContentstackJson {\n",
        "  [key: string]: any;\n",
        "}\n",
    ]
    .concat();
    assert_eq!(generator.get_builtins(), expected);
    assert_eq!(BUILTINS, expected);
}

#[test]
fn generate_field_goes_by_the_kind() {
    let generator = TypescriptGenerator::new(None, None);
    assert_eq!(
        generator.generate_field(&Field::Bool(named("done"))),
        generator.generate_bool(&named("done"))
    );
    assert_eq!(
        generator.generate_field(&Field::Date(named("at"))),
        "at: string;"
    );
    assert_eq!(
        generator.generate_field(&Field::Json(named("data"))),
        "data: ContentstackJson;"
    );
}
