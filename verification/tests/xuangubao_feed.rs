use rss_forge::routes::xuangubao::{flash_item, flash_meta, live_url, newsflash_feed, BkjInfo, LiveQuery, NewsFlash, Stock};

#[test]
fn live_url_defaults_and_limits() {
    let q = LiveQuery { subj_ids: None, limit: None, cursor: None };
    assert_eq!(
        live_url(&q),
        "https://baoer-api.xuangubao.com.cn/api/v6/message/newsflash?limit=30&subj_ids=9,10,723,35,469,821&platform=pcweb"
    );
    let q = LiveQuery { subj_ids: Some("9".to_string()), limit: Some(80), cursor: Some(-12) };
    assert_eq!(
        live_url(&q),
        "https://baoer-api.xuangubao.com.cn/api/v6/message/newsflash?limit=50&subj_ids=9&platform=pcweb&cursor=-12"
    );
    let q = LiveQuery { subj_ids: None, limit: Some(5), cursor: None };
    assert!(live_url(&q).contains("?limit=5&"));
}

fn flash() -> NewsFlash {
    NewsFlash {
        id: 7,
        title: "快讯".to_string(),
        summary: Some("摘要".to_string()),
        stocks: vec![
            Stock { name: "甲".to_string(), symbol: "000001.SZ".to_string() },
            Stock { name: "乙".to_string(), symbol: "600000.SS".to_string() },
        ],
        bkj_infos: vec![BkjInfo { name: "银行".to_string() }, BkjInfo { name: "券商".to_string() }],
        created_at: 60,
        route: None,
    }
}

#[test]
fn flash_item_fields() {
    let item = flash_item(&flash());
    assert_eq!(item.link, "https://xuangubao.com.cn/article/7");
    assert_eq!(item.guid.as_deref(), Some("xuangutong-7"));
    assert_eq!(
        item.description,
        "摘要<br/>📈 相关股票：甲 (000001.SZ)、乙 (600000.SS)<br/>🏷 银行 · 券商"
    );
    assert_eq!(item.categories, vec!["银行".to_string(), "券商".to_string()]);
    assert!(item.author.is_none());
    assert_eq!(item.pub_date, Some(60));
}

#[test]
fn bare_flash_item() {
    let mut f = flash();
    f.summary = Some(String::new());
    f.stocks = Vec::new();
    f.bkj_infos = Vec::new();
    f.route = Some("https://x/route".to_string());
    let item = flash_item(&f);
    assert_eq!(item.description, "");
    assert_eq!(item.link, "https://x/route");
    assert!(item.categories.is_empty());
}

#[test]
fn flash_meta_tells_cursor() {
    assert_eq!(flash_meta(Some(99)).description, "选股通 7x24 小时财经快讯 (next_cursor=99)");
    assert_eq!(flash_meta(None).description, "选股通 7x24 小时财经快讯");
    assert_eq!(flash_meta(None).title, "选股通 7x24 快讯");
    let xml = newsflash_feed(&vec![flash()], Some(1));
    assert_eq!(xml.matches("<item>").count(), 1);
    assert!(xml.contains("<category>银行</category>"));
}
