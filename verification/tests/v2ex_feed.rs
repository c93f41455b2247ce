use rss_forge::routes::v2ex::{v2ex_feed, v2ex_item, v2ex_meta, v2ex_url, V2exMember, V2exNode, V2exTopic};

fn topic() -> V2exTopic {
    V2exTopic {
        title: "标题".to_string(),
        url: "https://www.v2ex.com/t/1".to_string(),
        content: Some("内容".to_string()),
        replies: 5,
        member: V2exMember { username: "bob".to_string() },
        node: Some(V2exNode { title: "问与答".to_string(), name: "qna".to_string() }),
        created: 0,
    }
}

#[test]
fn v2ex_addresses_and_meta() {
    assert_eq!(v2ex_url("hot"), "https://www.v2ex.com/api/v2/topics/hot");
    assert_eq!(v2ex_meta("latest").title, "V2EX 最新主题");
    assert_eq!(v2ex_meta("latest").description, "V2EX 最新发布的主题");
    assert_eq!(v2ex_meta("hot").title, "V2EX 热门主题");
    assert_eq!(v2ex_meta("hot").description, "V2EX 今日热门主题");
    assert_eq!(v2ex_meta("other").title, "V2EX 主题");
    assert_eq!(v2ex_meta("other").language.as_deref(), Some("zh-CN"));
}

#[test]
fn topic_item() {
    let item = v2ex_item(&topic());
    assert_eq!(
        item.description,
        "📂 节点: <a href=\"https://www.v2ex.com/go/qna\">问与答</a><br/>💬 回复数: 5<br/>内容"
    );
    assert_eq!(item.link, "https://www.v2ex.com/t/1");
    assert_eq!(item.guid.as_deref(), Some("https://www.v2ex.com/t/1"));
    assert_eq!(item.author.as_deref(), Some("bob"));
    assert_eq!(item.categories, vec!["问与答".to_string()]);
    assert_eq!(item.pub_date, Some(0));
}

#[test]
fn topic_without_node_or_content() {
    let mut t = topic();
    t.node = None;
    t.content = Some(String::new());
    t.created = u64::MAX;
    let item = v2ex_item(&t);
    assert_eq!(item.description, "💬 回复数: 5");
    assert!(item.categories.is_empty());
    assert_eq!(item.pub_date, Some(-1));
    let xml = v2ex_feed("hot", &vec![topic(), t]);
    assert_eq!(xml.matches("<item>").count(), 2);
}
