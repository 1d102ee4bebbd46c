use whisper_typeless::context_templates::{ContextTemplate, TemplateId, TemplateRegistry};
use whisper_typeless::ui::templates::{
    delete_template, is_builtin_template_name, make_custom_template, save_template,
    template_entries,
};

fn builtins() -> Vec<ContextTemplate> {
    TemplateRegistry::new().all().into_iter().cloned().collect()
}

#[test]
fn builtin_names() {
    assert!(is_builtin_template_name("會議記錄"));
    assert!(is_builtin_template_name("法律文書"));
    assert!(!is_builtin_template_name("我的模板"));
}

#[test]
fn custom_template_shape() {
    let t = make_custom_template("筆記".into(), "請轉錄".into());
    assert_eq!(t.id, TemplateId::Custom("筆記".into()));
    assert_eq!(t.initial_prompt, "請轉錄");
    assert_eq!(t.language_override.as_deref(), Some("zh"));
    assert!(t.temperature_override_milli.is_none());
    assert!(t.keywords.is_empty());
    assert_eq!(t.postprocess.remove_fillers, vec!["嗯", "啊", "那個", "就是說"]);
}

#[test]
fn save_new_template_appends() {
    let mut ts = builtins();
    save_template(&mut ts, "筆記", "筆記", "請轉錄");
    assert_eq!(ts.len(), 6);
    assert_eq!(ts[5].id, TemplateId::Custom("筆記".into()));
    assert_eq!(ts[5].initial_prompt, "請轉錄");
}

#[test]
fn save_builtin_changes_prompt_not_name() {
    let mut ts = builtins();
    save_template(&mut ts, "會議記錄", "新名字", "新提示");
    assert_eq!(ts.len(), 5);
    assert_eq!(ts[0].id, TemplateId::Meeting);
    assert_eq!(ts[0].initial_prompt, "新提示");
    assert_eq!(ts[1].id, TemplateId::Casual);
}

#[test]
fn save_custom_renames() {
    let mut ts = builtins();
    save_template(&mut ts, "舊", "舊", "a");
    save_template(&mut ts, "舊", "新", "b");
    assert_eq!(ts.len(), 6);
    assert_eq!(ts[5].id, TemplateId::Custom("新".into()));
    assert_eq!(ts[5].initial_prompt, "b");
}

#[test]
fn delete_removes_all_with_name() {
    let mut ts = builtins();
    save_template(&mut ts, "甲", "甲", "1");
    ts.push(make_custom_template("甲".into(), "2".into()));
    delete_template(&mut ts, "甲");
    assert_eq!(ts.len(), 5);
    delete_template(&mut ts, "口語對話");
    let names: Vec<&str> = ts.iter().map(|t| t.id.display_name()).collect();
    assert_eq!(names, vec!["會議記錄", "技術討論", "醫療紀錄", "法律文書"]);
    delete_template(&mut ts, "口語對話");
    assert_eq!(ts.len(), 4);
}

#[test]
fn editor_rows() {
    let mut ts = builtins();
    save_template(&mut ts, "筆記", "筆記", "p");
    let rows = template_entries(&ts);
    assert_eq!(rows.len(), 6);
    assert_eq!(rows[0].name, "會議記錄");
    assert!(rows[0].is_builtin);
    assert_eq!(rows[5].name, "筆記");
    assert_eq!(rows[5].prompt, "p");
    assert!(!rows[5].is_builtin);
}
